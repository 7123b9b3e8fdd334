use wod::{get_languages, run_create_list_movements};

#[test]
fn test_run_list_movements() {
    let result = run_create_list_movements(false);
    let air_squat = result.split("\n\n").next().unwrap();
    assert_eq!(
        air_squat,
        "- [Air Squat](https://www.crossfit.com/essentials/the-air-squat)".to_string()
    );
}

#[test]
fn test_get_languages() {
    let langs = get_languages("en");
    assert_eq!(langs, vec!["en"]);

    let langs = get_languages("en,es");
    assert_eq!(langs, vec!["en", "es"]);
}

#[test]
fn test_list_with_url_ordered_by_name() {
    let table = wod::Movement::list_with_url();
    assert!(table.len() > 0);
    assert_eq!(table[0].0, "Air Squat");
    for w in table.windows(2) {
        assert!(w[0].0 < w[1].0);
    }
}

#[test]
fn test_page_listing_has_front_matter() {
    let page = run_create_list_movements(true);
    assert!(page.starts_with("---\ntitle: \"CrossFit Movements\""));
    assert!(page.contains("- [Air Squat](https://www.crossfit.com/essentials/the-air-squat)"));
}
