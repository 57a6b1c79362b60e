use tinted_store::model::{
    app_details_result, app_results, desktop_screenshots, first_category, FlathubApp,
    FlathubAppDetails, FlathubCategory, FlathubScreenshot,
};

fn app(id: &str, name: &str, summary: &str, icon: &str) -> FlathubApp {
    FlathubApp {
        flatpak_app_id: id.to_string(),
        name: name.to_string(),
        summary: summary.to_string(),
        icon_desktop_url: icon.to_string(),
    }
}

fn bare_details() -> FlathubAppDetails {
    FlathubAppDetails {
        flatpak_app_id: "org.example.App".to_string(),
        name: "Example".to_string(),
        summary: "An example".to_string(),
        description: None,
        icon_desktop_url: "https://img/icon.png".to_string(),
        current_release_version: None,
        current_release_date: None,
        developer_name: None,
        project_license: None,
        categories: None,
        screenshots: None,
    }
}

fn shot(desktop: Option<&str>, mobile: Option<&str>, thumb: Option<&str>) -> FlathubScreenshot {
    FlathubScreenshot {
        img_desktop_url: desktop.map(|s| s.to_string()),
        img_mobile_url: mobile.map(|s| s.to_string()),
        thumb_url: thumb.map(|s| s.to_string()),
    }
}

fn category(name: &str) -> FlathubCategory {
    FlathubCategory { name: name.to_string() }
}

#[test]
fn search_results_keep_fields_and_order() {
    let apps = vec![
        app("org.a.A", "A", "first", "https://a/icon"),
        app("org.b.B", "B", "second", "https://b/icon"),
        app("org.c.C", "C", "third", "https://c/icon"),
    ];
    let results = app_results(&apps);
    assert_eq!(results.len(), 3);
    for (r, a) in results.iter().zip(apps.iter()) {
        assert_eq!(r.id, a.flatpak_app_id);
        assert_eq!(r.name, a.name);
        assert_eq!(r.summary, a.summary);
        assert_eq!(r.icon_url, a.icon_desktop_url);
    }
    assert_eq!(results[0].id, "org.a.A");
    assert_eq!(results[2].icon_url, "https://c/icon");
}

#[test]
fn no_matches_is_an_empty_list() {
    assert!(app_results(&Vec::new()).is_empty());
}

#[test]
fn absent_fields_take_their_defaults() {
    let r = app_details_result(&bare_details());
    assert_eq!(r.id, "org.example.App");
    assert_eq!(r.name, "Example");
    assert_eq!(r.summary, "An example");
    assert_eq!(r.icon_url, "https://img/icon.png");
    assert_eq!(r.description, "No description available.");
    assert_eq!(r.version, "Unknown");
    assert_eq!(r.developer, "Unknown Developer");
    assert_eq!(r.license, "Unknown");
    assert_eq!(r.category, "Other");
    assert_eq!(r.updated_date, "Unknown");
    assert!(r.screenshots.is_empty());
}

#[test]
fn present_fields_are_carried_over() {
    let mut d = bare_details();
    d.description = Some("<p>A  <em>fine</em>\n app</p>".to_string());
    d.current_release_version = Some("1.2.3".to_string());
    d.current_release_date = Some("2024-05-01".to_string());
    d.developer_name = Some("Jo".to_string());
    d.project_license = Some("MIT".to_string());
    d.categories = Some(vec![category("Office")]);
    d.screenshots = Some(vec![shot(Some("https://s/1"), None, None)]);
    let r = app_details_result(&d);
    assert_eq!(r.description, "A fine app");
    assert_eq!(r.version, "1.2.3");
    assert_eq!(r.updated_date, "2024-05-01");
    assert_eq!(r.developer, "Jo");
    assert_eq!(r.license, "MIT");
    assert_eq!(r.category, "Office");
    assert_eq!(r.screenshots, vec!["https://s/1".to_string()]);
}

#[test]
fn first_category_wins() {
    let cats = Some(vec![category("Games"), category("Utility")]);
    assert_eq!(first_category(&cats), "Games");
}

#[test]
fn empty_category_list_is_other() {
    assert_eq!(first_category(&Some(Vec::new())), "Other");
    assert_eq!(first_category(&None), "Other");
}

#[test]
fn only_desktop_screenshots_are_kept() {
    let shots = Some(vec![
        shot(Some("a"), None, None),
        shot(None, Some("b"), None),
        shot(Some("c"), None, Some("d")),
    ]);
    assert_eq!(desktop_screenshots(&shots), vec!["a".to_string(), "c".to_string()]);
}

#[test]
fn empty_screenshot_list_gives_none() {
    assert!(desktop_screenshots(&Some(Vec::new())).is_empty());
}
