use epic_diagram::diagram_html_emitter::{
    body_postlude, body_prelude, epic_badge, footer, format_story_labels, generate_page,
    generate_page_at, head, label_badge, main_section, nav, postlude, prelude, story_details,
};
use epic_diagram::diagram_text_emitter::dot_representation;
use epic_diagram::epic_info::{Blocker, Epic, Label, Story, StoryState};

fn label(name: &str) -> Label {
    Label { id: 3, kind: "label".to_string(), name: name.to_string() }
}

fn checkout_epic() -> Epic {
    Epic { id: 1, project_id: 5, name: "Checkout".to_string() }
}

fn add_cart() -> Story {
    Story {
        id: 42,
        project_id: 5,
        name: "Add cart".to_string(),
        url: "https://www.pivotaltracker.com/story/show/42".to_string(),
        current_state: StoryState::Started,
        blockers: Some(vec![Blocker { id: 9, story_id: 42, description: "blocked by #7".to_string() }]),
        labels: Some(vec![label("checkout")]),
    }
}

#[test]
fn labels_epic_badge_first_and_epic_label_left_out() {
    let labels = Some(vec![label("checkout"), label("backend"), label("ui")]);
    assert_eq!(
        format_story_labels(&labels, "Checkout"),
        "<span class=\"badge-epic\">checkout</span>, <span class=\"badge-label\">backend</span>, \
         <span class=\"badge-label\">ui</span>"
    );
}

#[test]
fn labels_match_epic_case_insensitively() {
    let labels = Some(vec![label("CheckOut"), label("Backend")]);
    assert_eq!(
        format_story_labels(&labels, "checkout"),
        "<span class=\"badge-epic\">checkout</span>, <span class=\"badge-label\">Backend</span>"
    );
}

#[test]
fn labels_absent_or_only_epic() {
    assert_eq!(format_story_labels(&None, "Big EPIC"), "<span class=\"badge-epic\">big epic</span>");
    assert_eq!(
        format_story_labels(&Some(vec![label("big epic")]), "Big EPIC"),
        "<span class=\"badge-epic\">big epic</span>"
    );
    assert_eq!(format_story_labels(&Some(vec![]), "E"), "<span class=\"badge-epic\">e</span>");
}

#[test]
fn single_badges() {
    assert_eq!(epic_badge("checkout"), "<span class=\"badge-epic\">checkout</span>");
    assert_eq!(label_badge("Checkout", "checkout", "checkout"), "");
    assert_eq!(label_badge("Backend", "backend", "checkout"), ", <span class=\"badge-label\">Backend</span>");
}

#[test]
fn end_to_end_story_details() {
    assert_eq!(
        story_details(&add_cart(), "Checkout"),
        "<div id='story-details-42' class='not-selected'>\
         <p><b>Id:</b> <a href='https://www.pivotaltracker.com/story/show/42' target=_blank>42</a></p>\
         <p><b>Name:</b> Add cart</p>\
         <p><b>Labels:</b> <span class=\"badge-epic\">checkout</span></p>\
         <p><b>Current State:</b> Started</p></div>\n"
    );
}

#[test]
fn page_pieces() {
    assert_eq!(prelude(), "<!DOCTYPE html>\n<html lang='en-CA'>\n");
    assert_eq!(postlude(), "</html>\n");
    assert_eq!(body_prelude(), "<body>\n");
    assert_eq!(body_postlude(), "\n</body>\n");
    assert_eq!(nav(&checkout_epic()), "<div class='wrapper'><nav><h1>Epic: Checkout</h1></nav>");
    assert_eq!(
        footer("2024-05-01T10:00:00+02:00"),
        "</div><footer><p>generated on: 2024-05-01T10:00:00+02:00</p></footer>"
    );
}

#[test]
fn head_embeds_script_and_styles() {
    let h = head("function ticketNodeCallback(id) {}", "body { margin: 0; }");
    assert!(h.starts_with("\n  <head>\n    <meta charset=\"utf-8\">"));
    assert!(h.contains("mermaid.initialize({\n        startOnLoad: true,\n      });"));
    assert!(h.contains("<script>\n      function ticketNodeCallback(id) {}\n    </script>"));
    assert!(h.contains("<style>\n      body { margin: 0; }\n    </style>\n  </head>\n  "));
}

#[test]
fn main_section_panel_then_diagram() {
    let epic = checkout_epic();
    let stories = vec![add_cart()];
    let m = main_section(&epic, &stories);
    let expected = format!(
        "<main>\n      <div class=\"panel\">\n        <div id=\"empty-state\">\n         \
         <p>Click a story to see its details.</p>\n        </div>\n        {}\n      </div>\n        \
         \n\n      <div class=\"diagram-container\">\n        <div class=\"mermaid\">\n        \n{}\n\
         \n        </div>\n      </div>\n        \n</main>",
        story_details(&stories[0], "Checkout"),
        dot_representation(&epic, &stories)
    );
    assert_eq!(m, expected);
}

#[test]
fn end_to_end_page() {
    let epic = checkout_epic();
    let stories = vec![add_cart()];
    let page = generate_page_at(&epic, &stories, "/* ui */", "/* css */", "2024-05-01T10:00:00Z");
    assert!(page.starts_with("<!DOCTYPE html>\n<html lang='en-CA'>\n\n\n  <head>"));
    assert!(page.contains("\t42:::BLUE\n"));
    assert!(page.contains("\tclick 42 call ticketNodeCallback()\n"));
    assert!(page.contains("\t7 --> 42\n"));
    assert!(page.contains("<div id='story-details-42' class='not-selected'>"));
    assert!(page.contains("<p><b>Name:</b> Add cart</p>"));
    assert!(page.contains("<span class=\"badge-epic\">checkout</span>"));
    assert!(page.contains("<p><b>Current State:</b> Started</p>"));
    assert!(page.contains("<h1>Epic: Checkout</h1>"));
    assert!(page.ends_with(
        "<p>generated on: 2024-05-01T10:00:00Z</p></footer>\n\n</body>\n\n</html>\n"
    ));
}

#[test]
fn generated_page_is_stamped() {
    let epic = checkout_epic();
    let stories = vec![add_cart()];
    let page = generate_page(&epic, &stories, "", "");
    let stamp_at = page.find("<p>generated on: ").expect("footer present") + 17;
    let stamp = &page[stamp_at..page.find("</p></footer>").unwrap()];
    assert!(stamp.len() >= 20);
    assert_eq!(
        page,
        generate_page_at(&epic, &stories, "", "", stamp)
    );
}
