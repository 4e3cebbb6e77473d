//! The asset source an application installs: the design's own glyphs
//! layered over gpui-kit's icon set. The renderer asks both sources; this
//! module decides which answer wins.
use vstd::prelude::*;

verus! {

/// Serves the design's glyphs first, then gpui-kit's bundled icons.
#[derive(Debug, Clone, Copy, Default)]
pub struct AuiAssets;

impl AuiAssets {
    /// The answer to loading one path, from the design's own answer `own`
    /// and gpui-kit's answer `kit`: the design's asset when it has one, and
    /// its failure when it fails; otherwise gpui-kit's asset, where a
    /// gpui-kit failure counts as a miss (gpui-kit reports a missing asset
    /// as an error, and a miss is not an error here).
    pub fn layer_load(
        own: Result<Option<Vec<u8>>, String>,
        kit: Result<Option<Vec<u8>>, String>,
    ) -> (r: Result<Option<Vec<u8>>, String>)
        ensures
            match own {
                Err(e) => r == Err::<Option<Vec<u8>>, String>(e),
                Ok(Some(bytes)) => r == Ok::<Option<Vec<u8>>, String>(Some(bytes)),
                Ok(None) => match kit {
                    Ok(found) => r == Ok::<Option<Vec<u8>>, String>(found),
                    Err(_) => r == Ok::<Option<Vec<u8>>, String>(None),
                },
            },
    {
        match own {
            Err(e) => Err(e),
            Ok(Some(bytes)) => Ok(Some(bytes)),
            Ok(None) => match kit {
                Ok(found) => Ok(found),
                Err(_) => Ok(None),
            },
        }
    }

    /// The answer to listing one directory: the design's entries followed by
    /// gpui-kit's; the design's failure fails the listing, gpui-kit's adds
    /// nothing.
    pub fn layer_list(own: Result<Vec<String>, String>, kit: Result<Vec<String>, String>) -> (r: Result<
        Vec<String>,
        String,
    >)
        ensures
            match own {
                Err(e) => r matches Err(f) && f == e,
                Ok(mine) => r matches Ok(all) && all@ == mine@ + match kit {
                    Ok(theirs) => theirs@,
                    Err(_) => Seq::empty(),
                },
            },
    {
        match own {
            Err(e) => Err(e),
            Ok(mine) => {
                let mut all = mine;
                match kit {
                    Ok(mut theirs) => {
                        all.append(&mut theirs);
                    },
                    Err(_) => {},
                }
                Ok(all)
            },
        }
    }
}

} // verus!
