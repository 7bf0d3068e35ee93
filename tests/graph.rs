use epic_diagram::decimal::decimal_text;
use epic_diagram::diagram_text_emitter::{bucket_of, dot_representation, prelude, story_node, Bucket};
use epic_diagram::epic_info::{Blocker, Epic, Label, Story, StoryState};

const LEGEND: &str = "graph TD\n\
    \tclassDef GREY fill:#e0e2e5,stroke:#c4c5c5,color:#000;\n\
    \tclassDef BLUE fill:#507bbd,stroke:#2959a4,color:#fff;\n\
    \tclassDef YELLOW fill:#f5b04f,stroke:#fc9d17,color:#fff;\n\
    \tclassDef GREEN fill:#94c37f,stroke:#5fa640,color:#fff;\n\
    \tclassDef RED fill:#e87450,stroke:#ec4d22,color:#fff;\n\
    \n";

fn blocker(description: &str) -> Blocker {
    Blocker { id: 1, story_id: 1, description: description.to_string() }
}

fn story(id: u64, state: StoryState, blockers: Option<Vec<Blocker>>) -> Story {
    Story {
        id,
        project_id: 5,
        name: format!("story {}", id),
        url: format!("https://www.pivotaltracker.com/story/show/{}", id),
        current_state: state,
        blockers,
        labels: None,
    }
}

fn epic() -> Epic {
    Epic { id: 1, project_id: 5, name: "Checkout".to_string() }
}

#[test]
fn decimal_text_values() {
    assert_eq!(decimal_text(0), "0");
    assert_eq!(decimal_text(42), "42");
    assert_eq!(decimal_text(1000), "1000");
    assert_eq!(decimal_text(u64::MAX), "18446744073709551615");
}

#[test]
fn prelude_lists_all_five_classes() {
    assert_eq!(prelude(), LEGEND);
}

#[test]
fn states_fall_into_buckets() {
    assert_eq!(bucket_of(StoryState::Accepted), Bucket::Green);
    assert_eq!(bucket_of(StoryState::Delivered), Bucket::Green);
    assert_eq!(bucket_of(StoryState::Finished), Bucket::Green);
    assert_eq!(bucket_of(StoryState::Started), Bucket::Blue);
    assert_eq!(bucket_of(StoryState::Rejected), Bucket::Red);
    assert_eq!(bucket_of(StoryState::Planned), Bucket::Grey);
    assert_eq!(bucket_of(StoryState::Unstarted), Bucket::Grey);
    assert_eq!(bucket_of(StoryState::Unscheduled), Bucket::Grey);
    assert_eq!(Bucket::Yellow.name(), "YELLOW");
}

#[test]
fn end_to_end_story_node() {
    let s = story(42, StoryState::Started, Some(vec![blocker("blocked by #7")]));
    assert_eq!(story_node(&s), "\t42:::BLUE\n\tclick 42 call ticketNodeCallback()\n\t7 --> 42\n\n");
}

#[test]
fn edge_reads_blocker_first() {
    let s = story(5, StoryState::Rejected, Some(vec![blocker("#99")]));
    let text = story_node(&s);
    assert!(text.contains("\t99 --> 5\n"));
    assert!(!text.contains("5 --> 99"));
}

#[test]
fn one_node_one_click_and_an_edge_per_reference() {
    let s = story(
        10,
        StoryState::Accepted,
        Some(vec![
            blocker("#1 and #2"),
            blocker("nothing here"),
            blocker("https://www.pivotaltracker.com/story/show/3"),
        ]),
    );
    let text = story_node(&s);
    assert_eq!(
        text,
        "\t10:::GREEN\n\tclick 10 call ticketNodeCallback()\n\t1 --> 10\n\t2 --> 10\n\t3 --> 10\n\n"
    );
    assert_eq!(text.matches(":::").count(), 1);
    assert_eq!(text.matches("click ").count(), 1);
    assert_eq!(text.matches(" --> ").count(), 3);
}

#[test]
fn absent_and_empty_blockers_render_no_edge() {
    let none = story(8, StoryState::Planned, None);
    let empty = story(8, StoryState::Planned, Some(vec![]));
    let expected = "\t8:::GREY\n\tclick 8 call ticketNodeCallback()\n\n";
    assert_eq!(story_node(&none), expected);
    assert_eq!(story_node(&empty), expected);
}

#[test]
fn reference_outside_the_epic_still_renders() {
    let stories = vec![story(1, StoryState::Started, Some(vec![blocker("#777")]))];
    let text = dot_representation(&epic(), &stories);
    assert!(text.contains("\t777 --> 1\n"));
    assert!(!text.contains("\t777:::"));
}

#[test]
fn document_is_legend_then_stories_in_order() {
    let stories = vec![
        story(2, StoryState::Finished, None),
        story(1, StoryState::Unstarted, Some(vec![blocker("#2")])),
    ];
    let expected = format!(
        "{}\n\t2:::GREEN\n\tclick 2 call ticketNodeCallback()\n\n\
         \t1:::GREY\n\tclick 1 call ticketNodeCallback()\n\t2 --> 1\n\n",
        LEGEND
    );
    assert_eq!(dot_representation(&epic(), &stories), expected);
}

#[test]
fn empty_story_list_renders_legend_only() {
    assert_eq!(dot_representation(&epic(), &vec![]), format!("{}\n", LEGEND));
}

#[test]
fn rendering_twice_is_identical() {
    let mut s = story(3, StoryState::Delivered, Some(vec![blocker("#4 #5"), blocker("#6")]));
    s.labels = Some(vec![Label { id: 1, kind: "label".to_string(), name: "x".to_string() }]);
    let stories = vec![s, story(4, StoryState::Started, None)];
    assert_eq!(dot_representation(&epic(), &stories), dot_representation(&epic(), &stories));
}
