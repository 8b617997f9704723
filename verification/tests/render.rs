use tailwind_bot::algolia::DocResult;
use tailwind_bot::presenter::{
    render, select_menu_custom_id, select_menu_placeholder, selection_bounds,
};

fn rec(label: &str, description: Option<&str>, url: &str) -> DocResult {
    DocResult {
        label: String::from(label),
        description: description.map(String::from),
        url: String::from(url),
    }
}

#[test]
fn empty_results_render_plain_notice() {
    let prompt = render("xyzzynotfound", &vec![]);
    assert_eq!(prompt.content, "No results found for `xyzzynotfound`!");
    assert_eq!(prompt.options.len(), 0);
    assert!(prompt.ephemeral);
}

#[test]
fn nonempty_results_render_one_option_per_record() {
    let recs = vec![
        rec("Flex", Some("Setting flex"), "https://t.com/docs/flex"),
        rec("Flex Wrap", None, "https://t.com/docs/flex-wrap"),
    ];
    let prompt = render("flex", &recs);
    assert_eq!(prompt.content, "Displaying resuls for `flex`.\n\nPlease select a result to display:");
    assert!(prompt.ephemeral);
    assert_eq!(prompt.options.len(), 2);
    assert_eq!(prompt.options[0].label, "Flex");
    assert_eq!(prompt.options[0].value, "https://t.com/docs/flex");
    assert_eq!(prompt.options[0].description.as_deref(), Some("└ Setting flex"));
    assert_eq!(prompt.options[1].label, "Flex Wrap");
    assert_eq!(prompt.options[1].value, "https://t.com/docs/flex-wrap");
    assert!(prompt.options[1].description.is_none());
}

#[test]
fn select_menu_constants() {
    assert_eq!(select_menu_custom_id(), "select_doc_entry");
    assert_eq!(select_menu_placeholder(), "Please select an entry");
    assert_eq!(selection_bounds(), (1, 1));
}
