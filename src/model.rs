use vstd::prelude::*;
use vstd::string::StringExecFns;
use crate::sanitize::{sanitized, strip_html_tags};

verus! {

/// One entry of the store's search response.
pub struct FlathubApp {
    pub flatpak_app_id: String,
    pub name: String,
    pub summary: String,
    pub icon_desktop_url: String,
}

/// One entry of a search as the interface shows it.
pub struct AppResult {
    pub id: String,
    pub name: String,
    pub summary: String,
    pub icon_url: String,
}

/// A category that the store files an application under.
pub struct FlathubCategory {
    pub name: String,
}

/// One screenshot of an application, each size optional.
pub struct FlathubScreenshot {
    pub img_desktop_url: Option<String>,
    pub img_mobile_url: Option<String>,
    pub thumb_url: Option<String>,
}

/// The store's record of one application.
pub struct FlathubAppDetails {
    pub flatpak_app_id: String,
    pub name: String,
    pub summary: String,
    pub description: Option<String>,
    pub icon_desktop_url: String,
    pub current_release_version: Option<String>,
    pub current_release_date: Option<String>,
    pub developer_name: Option<String>,
    pub project_license: Option<String>,
    pub categories: Option<Vec<FlathubCategory>>,
    pub screenshots: Option<Vec<FlathubScreenshot>>,
}

/// The record of one application as the interface shows it: every field present.
pub struct AppDetailsResult {
    pub id: String,
    pub name: String,
    pub summary: String,
    pub description: String,
    pub icon_url: String,
    pub version: String,
    pub developer: String,
    pub license: String,
    pub category: String,
    pub updated_date: String,
    pub screenshots: Vec<String>,
}

/// The text of each string, in order.
pub open spec fn string_views(v: Seq<String>) -> Seq<Seq<char>> {
    v.map_values(|s: String| s@)
}

/// The text of an optional field, or `default` where it is absent.
pub open spec fn or_default(v: Option<String>, default: Seq<char>) -> Seq<char> {
    match v {
        Some(s) => s@,
        None => default,
    }
}

/// Each field of the search entry carried over under its new name.
pub open spec fn is_result_of(r: AppResult, app: FlathubApp) -> bool {
    &&& r.id@ == app.flatpak_app_id@
    &&& r.name@ == app.name@
    &&& r.summary@ == app.summary@
    &&& r.icon_url@ == app.icon_desktop_url@
}

/// The name of the first category, or `"Other"` where there is none.
pub open spec fn category_of(categories: Option<Vec<FlathubCategory>>) -> Seq<char> {
    match categories {
        Some(v) => if v@.len() > 0 {
            v@[0].name@
        } else {
            "Other"@
        },
        None => "Other"@,
    }
}

/// The desktop image of each screenshot that has one, in order.
pub open spec fn desktop_urls(shots: Seq<FlathubScreenshot>) -> Seq<Seq<char>>
    decreases shots.len(),
{
    if shots.len() == 0 {
        Seq::empty()
    } else {
        let r = desktop_urls(shots.drop_last());
        match shots.last().img_desktop_url {
            Some(u) => r.push(u@),
            None => r,
        }
    }
}

/// The desktop images of the screenshots, none where the list is absent.
pub open spec fn screenshot_urls_of(shots: Option<Vec<FlathubScreenshot>>) -> Seq<Seq<char>> {
    match shots {
        Some(v) => desktop_urls(v@),
        None => Seq::empty(),
    }
}

/// The sanitized description, or a fixed sentence where it is absent.
pub open spec fn description_of(description: Option<String>) -> Seq<char> {
    match description {
        Some(s) => sanitized(s@),
        None => "No description available."@,
    }
}

fn copy_string(s: &String) -> (r: String)
    ensures
        r@ == s@,
{
    s.clone()
}

fn text_or(v: &Option<String>, default: &str) -> (r: String)
    ensures
        r@ == or_default(*v, default@),
{
    match v {
        Some(s) => copy_string(s),
        None => String::from_str(default),
    }
}

/// Carries a search entry over to what the interface shows.
pub fn app_result(app: &FlathubApp) -> (r: AppResult)
    ensures
        is_result_of(r, *app),
{
    AppResult {
        id: copy_string(&app.flatpak_app_id),
        name: copy_string(&app.name),
        summary: copy_string(&app.summary),
        icon_url: copy_string(&app.icon_desktop_url),
    }
}

/// Carries each search entry over, one for one and in order.
pub fn app_results(apps: &Vec<FlathubApp>) -> (r: Vec<AppResult>)
    ensures
        r@.len() == apps@.len(),
        forall|i: int| 0 <= i < apps@.len() ==> is_result_of(#[trigger] r@[i], apps@[i]),
{
    let mut out: Vec<AppResult> = Vec::new();
    let mut i: usize = 0;
    while i < apps.len()
        invariant
            i <= apps@.len(),
            out@.len() == i,
            forall|k: int| 0 <= k < i ==> is_result_of(#[trigger] out@[k], apps@[k]),
        decreases apps@.len() - i,
    {
        out.push(app_result(&apps[i]));
        i = i + 1;
    }
    out
}

/// The first category's name, or `"Other"`.
pub fn first_category(categories: &Option<Vec<FlathubCategory>>) -> (r: String)
    ensures
        r@ == category_of(*categories),
{
    match categories {
        Some(v) => if v.len() > 0 {
            copy_string(&v[0].name)
        } else {
            String::from_str("Other")
        },
        None => String::from_str("Other"),
    }
}

/// The desktop image of each screenshot that has one; the others are left out.
pub fn desktop_screenshots(shots: &Option<Vec<FlathubScreenshot>>) -> (r: Vec<String>)
    ensures
        string_views(r@) == screenshot_urls_of(*shots),
{
    let mut out: Vec<String> = Vec::new();
    match shots {
        Some(v) => {
            let mut i: usize = 0;
            while i < v.len()
                invariant
                    i <= v@.len(),
                    string_views(out@) == desktop_urls(v@.take(i as int)),
                decreases v@.len() - i,
            {
                proof {
                    assert(v@.take(i + 1).drop_last() =~= v@.take(i as int));
                }
                match &v[i].img_desktop_url {
                    Some(u) => {
                        out.push(copy_string(u));
                        assert(string_views(out@) =~= desktop_urls(v@.take(i as int)).push(u@));
                    },
                    None => {},
                }
                i = i + 1;
            }
            proof {
                assert(v@.take(v@.len() as int) =~= v@);
            }
        },
        None => {
            assert(string_views(out@) =~= Seq::empty());
        },
    }
    out
}

/// The application's record with every absent field given its default, the
/// description sanitized, and the screenshots reduced to their desktop images.
pub fn app_details_result(d: &FlathubAppDetails) -> (r: AppDetailsResult)
    ensures
        r.id@ == d.flatpak_app_id@,
        r.name@ == d.name@,
        r.summary@ == d.summary@,
        r.description@ == description_of(d.description),
        r.icon_url@ == d.icon_desktop_url@,
        r.version@ == or_default(d.current_release_version, "Unknown"@),
        r.developer@ == or_default(d.developer_name, "Unknown Developer"@),
        r.license@ == or_default(d.project_license, "Unknown"@),
        r.category@ == category_of(d.categories),
        r.updated_date@ == or_default(d.current_release_date, "Unknown"@),
        string_views(r.screenshots@) == screenshot_urls_of(d.screenshots),
{
    let description = match &d.description {
        Some(s) => strip_html_tags(s.as_str()),
        None => String::from_str("No description available."),
    };
    AppDetailsResult {
        id: copy_string(&d.flatpak_app_id),
        name: copy_string(&d.name),
        summary: copy_string(&d.summary),
        description,
        icon_url: copy_string(&d.icon_desktop_url),
        version: text_or(&d.current_release_version, "Unknown"),
        developer: text_or(&d.developer_name, "Unknown Developer"),
        license: text_or(&d.project_license, "Unknown"),
        category: first_category(&d.categories),
        updated_date: text_or(&d.current_release_date, "Unknown"),
        screenshots: desktop_screenshots(&d.screenshots),
    }
}

} // verus!
