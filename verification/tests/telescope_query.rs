use telescope::action::{Action, PopupAction};
use telescope::telescope_query::TelescopeQuery;

#[test]
fn test_get_contents() {
    let query = TelescopeQuery::new("prefix".to_string(), "suffix".to_string());
    assert_eq!(query.get_contents(), "prefixsuffix");
}

#[test]
fn test_append_char() {
    let mut query = TelescopeQuery::default();
    query.append_char('a');
    assert_eq!(query.get_contents(), "a");
}

#[test]
fn test_pop_contents() {
    let mut query = TelescopeQuery::new("prefix".to_string(), "suffix".to_string());
    query.append_char('a');
    assert_eq!(query.pop_contents(), "a");
}

#[test]
fn test_drop_char() {
    let mut query = TelescopeQuery::new("prefix".to_string(), "suffix".to_string());
    query.append_char('a');
    query.drop_char();
    assert_eq!(query.get_contents(), "prefixsuffix");
}

#[test]
fn test_remove_char() {
    let mut query = TelescopeQuery::new("prefix".to_string(), "suffix".to_string());
    query.append_char('a');
    query.remove_char();
    assert_eq!(query.get_contents(), "prefixsuffix");
}

#[test]
fn test_clear_contents() {
    let mut query = TelescopeQuery::new("prefix".to_string(), "suffix".to_string());
    query.append_char('a');
    query.clear_contents();
    assert_eq!(query.get_contents(), "prefixsuffix");
}

#[test]
fn default_query_is_empty() {
    let query = TelescopeQuery::default();
    assert_eq!(query.get_contents(), "");
    assert_eq!(query.contents, "");
    assert_eq!(query.prefix, "");
    assert_eq!(query.suffix, "");
}

#[test]
fn contents_stand_between_prefix_and_suffix() {
    let mut query = TelescopeQuery::new("<".to_string(), ">".to_string());
    query.append_char('a');
    query.append_char('b');
    assert_eq!(query.contents, "ab");
    assert_eq!(query.get_contents(), "<ab>");
}

#[test]
fn append_then_drop_restores_the_text() {
    let mut query = TelescopeQuery::new("pre".to_string(), "post".to_string());
    query.append_char('x');
    query.append_char('y');
    let before = query.get_contents();
    query.append_char('z');
    assert_eq!(query.get_contents(), "prexyzpost");
    query.drop_char();
    assert_eq!(query.get_contents(), before);
}

#[test]
fn drop_char_on_empty_contents_leaves_them_empty() {
    let mut query = TelescopeQuery::new("prefix".to_string(), "suffix".to_string());
    query.drop_char();
    assert_eq!(query.contents, "");
    assert_eq!(query.get_contents(), "prefixsuffix");
}

#[test]
fn drop_char_takes_the_last_character_only() {
    let mut query = TelescopeQuery::default();
    query.append_char('a');
    query.append_char('b');
    query.append_char('c');
    query.drop_char();
    assert_eq!(query.contents, "ab");
}

#[test]
fn pop_contents_leaves_the_frame() {
    let mut query = TelescopeQuery::new("prefix".to_string(), "suffix".to_string());
    query.append_char('a');
    query.append_char('b');
    assert_eq!(query.pop_contents(), "ab");
    assert_eq!(query.contents, "");
    assert_eq!(query.get_contents(), "prefixsuffix");
}

#[test]
fn remove_char_asks_for_a_search_of_what_is_left() {
    let mut query = TelescopeQuery::new("prefix".to_string(), "suffix".to_string());
    query.append_char('a');
    query.append_char('b');
    let action = query.remove_char();
    assert_eq!(
        action,
        Some(Action::PopupAct(PopupAction::UpdateSearchQuery("a".to_string())))
    );
    assert_eq!(query.contents, "a");
}

#[test]
fn remove_char_on_empty_contents_asks_for_the_empty_query() {
    let mut query = TelescopeQuery::default();
    let action = query.remove_char();
    assert_eq!(
        action,
        Some(Action::PopupAct(PopupAction::UpdateSearchQuery(String::new())))
    );
    assert_eq!(query.contents, "");
}

#[test]
fn clone_keeps_all_three_parts() {
    let mut query = TelescopeQuery::new("p".to_string(), "s".to_string());
    query.append_char('c');
    let copy = query.clone();
    assert_eq!(copy, query);
    assert_eq!(copy.get_contents(), "pcs");
}
