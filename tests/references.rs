use epic_diagram::references::{get_ticket_numbers_from_blocker_description, ReferenceFormat};

fn ids(text: &str) -> Vec<String> {
    get_ticket_numbers_from_blocker_description(text)
}

#[test]
fn short_tags_in_order_with_duplicates() {
    assert_eq!(ids("blocked by #7 and #12, again #7"), vec!["7", "12", "7"]);
}

#[test]
fn short_tag_takes_all_digits() {
    assert_eq!(ids("#123456789012345678901234567890."), vec!["123456789012345678901234567890"]);
}

#[test]
fn formats_grouped_in_fixed_order() {
    let text = "see https://www.pivotaltracker.com/story/show/300 and #5, \
                https://www.pivotaltracker.com/n/projects/99/stories/400 then #6 \
                and https://www.pivotaltracker.com/story/show/301";
    assert_eq!(ids(text), vec!["5", "6", "300", "301", "400"]);
}

#[test]
fn project_url_keeps_story_not_project() {
    assert_eq!(ids("https://www.pivotaltracker.com/n/projects/2468/stories/1357"), vec!["1357"]);
}

#[test]
fn no_pattern_gives_empty_list() {
    assert!(ids("waiting on the design review").is_empty());
    assert!(ids("").is_empty());
}

#[test]
fn hash_without_digits_is_no_reference() {
    assert!(ids("# 12, #x and ##").is_empty());
    assert_eq!(ids("##9"), vec!["9"]);
}

#[test]
fn url_without_digits_is_no_reference() {
    assert!(ids("https://www.pivotaltracker.com/story/show/").is_empty());
    assert!(ids("https://www.pivotaltracker.com/n/projects/12/stories/").is_empty());
}

#[test]
fn dot_of_host_matches_any_character() {
    assert_eq!(ids("https://wwwXpivotaltracker.com/story/show/8"), vec!["8"]);
    assert!(ids("https://www\npivotaltracker.com/story/show/8").is_empty());
}

#[test]
fn reference_formats_patterns() {
    assert_eq!(ReferenceFormat::ShortTag.pattern(), "\\#([0-9]+)");
    assert_eq!(ReferenceFormat::ShortTag.id_group(), 1);
    assert_eq!(ReferenceFormat::StoryUrl.id_group(), 1);
    assert_eq!(ReferenceFormat::ProjectStoryUrl.id_group(), 2);
}
