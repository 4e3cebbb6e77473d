use aui::assets::AuiAssets;

#[test]
fn the_design_glyph_wins_and_its_failure_fails_the_load() {
    assert_eq!(AuiAssets::layer_load(Ok(Some(vec![1])), Ok(Some(vec![2]))), Ok(Some(vec![1])));
    assert_eq!(AuiAssets::layer_load(Err("broken".to_string()), Ok(Some(vec![2]))), Err("broken".to_string()));
}

#[test]
fn a_kit_miss_or_failure_is_no_asset() {
    assert_eq!(AuiAssets::layer_load(Ok(None), Ok(Some(vec![2]))), Ok(Some(vec![2])));
    assert_eq!(AuiAssets::layer_load(Ok(None), Ok(None)), Ok(None));
    assert_eq!(AuiAssets::layer_load(Ok(None), Err("missing".to_string())), Ok(None));
}

#[test]
fn listings_put_the_design_first() {
    let own = Ok(vec!["icons/aui/a.svg".to_string()]);
    let kit = Ok(vec!["icons/b.svg".to_string()]);
    assert_eq!(
        AuiAssets::layer_list(own, kit),
        Ok(vec!["icons/aui/a.svg".to_string(), "icons/b.svg".to_string()])
    );
    assert_eq!(AuiAssets::layer_list(Ok(vec!["x".to_string()]), Err("e".to_string())), Ok(vec!["x".to_string()]));
    assert_eq!(AuiAssets::layer_list(Err("e".to_string()), Ok(Vec::new())), Err("e".to_string()));
}
