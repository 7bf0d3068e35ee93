//! Assembles the HTML report: the graph document, a detail panel per story and the page
//! around them.
use vstd::prelude::*;
use crate::decimal::{decimal, decimal_text};
use crate::diagram_text_emitter::{dot_representation, graph_text};
use crate::epic_info::{Epic, Label, Story};

verus! {

/// The head up to the page's script: metadata, the diagram and chart libraries, and the
/// diagram library set to render on load.
pub const HEAD_OPEN: &'static str = "\n  <head>\n    <meta charset=\"utf-8\">\n    <meta name=\"viewport\" content=\"width=device-width\">\n\n    <script src=\"https://cdn.jsdelivr.net/npm/mermaid/dist/mermaid.min.js\"></script>\n    <script src=\"https://d3js.org/d3.v6.min.js\"></script>\n\n    <script>\n      mermaid.initialize({\n        startOnLoad: true,\n      });\n    </script>\n\n    <script>\n      ";

/// The head between the page's script and its styles.
pub const HEAD_BETWEEN: &'static str = "\n    </script>\n\n    <style>\n      ";

/// The end of the head.
pub const HEAD_CLOSE: &'static str = "\n    </style>\n  </head>\n  ";

/// The container whose text the diagram library renders.
pub const DIAGRAM_OPEN: &'static str = "\n      <div class=\"diagram-container\">\n        <div class=\"mermaid\">\n        ";

/// The end of the diagram container.
pub const DIAGRAM_CLOSE: &'static str = "\n        </div>\n      </div>\n        ";

/// The detail panel, opening with the placeholder shown before any story is picked.
pub const PANEL_OPEN: &'static str = "\n      <div class=\"panel\">\n        <div id=\"empty-state\">\n         <p>Click a story to see its details.</p>\n        </div>\n        ";

/// The end of the detail panel.
pub const PANEL_CLOSE: &'static str = "\n      </div>\n        ";

/// What `str::to_lowercase` makes of a text.
pub uninterp spec fn lower_of(s: Seq<char>) -> Seq<char>;

/// Relies on str::to_lowercase, whose result depends on the text alone.
#[verifier::external_body]
fn lowercase(s: &str) -> (r: String)
    ensures
        r@ == lower_of(s@),
{
    s.to_lowercase()
}

/// Relies on chrono's Local::now and DateTime::to_rfc3339_opts for the current local time,
/// in seconds, with its offset; nothing is assumed of the text.
#[verifier::external_body]
fn local_timestamp() -> (r: String) {
    chrono::Local::now().to_rfc3339_opts(chrono::SecondsFormat::Secs, true)
}

pub open spec fn badge_text(name: Seq<char>) -> Seq<char> {
    "<span class=\"badge-label\">"@ + name + "</span>"@
}

/// The distinguished badge of the epic, shown by its lowercase name.
pub open spec fn epic_badge_text(epic_folded: Seq<char>) -> Seq<char> {
    "<span class=\"badge-epic\">"@ + epic_folded + "</span>"@
}

pub fn epic_badge(epic_folded: &str) -> (r: String)
    ensures
        r@ == epic_badge_text(epic_folded@),
{
    let mut out = String::from_str("<span class=\"badge-epic\">");
    out.append(epic_folded);
    out.append("</span>");
    out
}

/// What a label adds after the epic's badge: nothing for the epic's own label, whose
/// lowercase name `folded_name` equals the epic's lowercase name; else `, ` and its badge.
pub open spec fn label_badge_text(
    name: Seq<char>,
    folded_name: Seq<char>,
    epic_folded: Seq<char>,
) -> Seq<char> {
    if folded_name == epic_folded {
        seq![]
    } else {
        ", "@ + badge_text(name)
    }
}

pub fn label_badge(name: &str, folded_name: &str, epic_folded: &str) -> (r: String)
    ensures
        r@ == label_badge_text(name@, folded_name@, epic_folded@),
{
    if String::from_str(folded_name) == String::from_str(epic_folded) {
        String::new()
    } else {
        let mut out = String::from_str(", ");
        out.append("<span class=\"badge-label\">");
        out.append(name);
        out.append("</span>");
        out
    }
}

/// The badges of the labels, in order, leaving out the epic's own label by a case-insensitive
/// match of the names.
pub open spec fn ordinary_badges(labels: Seq<Label>, epic_label: Seq<char>) -> Seq<char>
    decreases labels.len(),
{
    if labels.len() == 0 {
        seq![]
    } else {
        ordinary_badges(labels.drop_last(), epic_label) + label_badge_text(
            labels.last().name@,
            lower_of(labels.last().name@),
            lower_of(epic_label),
        )
    }
}

/// The epic's badge, then the badges of the story's other labels.
pub open spec fn labels_text(labels: Option<Vec<Label>>, epic_label: Seq<char>) -> Seq<char> {
    epic_badge_text(lower_of(epic_label)) + match labels {
        Some(labels) => ordinary_badges(labels@, epic_label),
        None => seq![],
    }
}

/// The rendered label list of a story.
pub fn format_story_labels(story_labels: &Option<Vec<Label>>, epic_label: &str) -> (r: String)
    ensures
        r@ == labels_text(*story_labels, epic_label@),
{
    let epic_lowercase = lowercase(epic_label);
    let mut out = epic_badge(epic_lowercase.as_str());
    let ghost head = out@;
    match story_labels {
        Some(labels) => {
            let mut i: usize = 0;
            while i < labels.len()
                invariant
                    i <= labels.len(),
                    epic_lowercase@ == lower_of(epic_label@),
                    out@ == head + ordinary_badges(labels@.take(i as int), epic_label@),
                decreases labels.len() - i,
            {
                let name = labels[i].name.as_str();
                let folded = lowercase(name);
                let badge = label_badge(name, folded.as_str(), epic_lowercase.as_str());
                out.append(badge.as_str());
                proof {
                    assert(labels@.take(i + 1).drop_last() =~= labels@.take(i as int));
                }
                i += 1;
            }
            proof {
                assert(labels@.take(i as int) =~= labels@);
            }
        },
        None => {},
    }
    out
}

/// A story's hidden detail block.
pub open spec fn details_text(story: Story, epic_name: Seq<char>) -> Seq<char> {
    "<div id='story-details-"@ + decimal(story.id as nat)
        + "' class='not-selected'><p><b>Id:</b> <a href='"@ + story.url@ + "' target=_blank>"@
        + decimal(story.id as nat) + "</a></p><p><b>Name:</b> "@ + story.name@
        + "</p><p><b>Labels:</b> "@ + labels_text(story.labels, epic_name)
        + "</p><p><b>Current State:</b> "@ + story.current_state.name_spec() + "</p></div>\n"@
}

/// The hidden detail block of a story, keyed `story-details-<id>`.
pub fn story_details(story: &Story, epic_name: &str) -> (r: String)
    ensures
        r@ == details_text(*story, epic_name@),
{
    let labels_html = format_story_labels(&story.labels, epic_name);
    let id = decimal_text(story.id);
    let mut out = String::from_str("<div id='story-details-");
    out.append(id.as_str());
    out.append("' class='not-selected'><p><b>Id:</b> <a href='");
    out.append(story.url.as_str());
    out.append("' target=_blank>");
    out.append(id.as_str());
    out.append("</a></p><p><b>Name:</b> ");
    out.append(story.name.as_str());
    out.append("</p><p><b>Labels:</b> ");
    out.append(labels_html.as_str());
    out.append("</p><p><b>Current State:</b> ");
    out.append(story.current_state.name());
    out.append("</p></div>\n");
    out
}

pub open spec fn html_prelude_text() -> Seq<char> {
    "<!DOCTYPE html>\n<html lang='en-CA'>\n"@
}

/// The document type and the opening `html` tag.
pub fn prelude() -> (r: String)
    ensures
        r@ == html_prelude_text(),
{
    String::from_str("<!DOCTYPE html>\n<html lang='en-CA'>\n")
}

/// The head: metadata, the diagram library set to render on load, the page's script and its
/// styles.
pub open spec fn head_text(ui_script: Seq<char>, css: Seq<char>) -> Seq<char> {
    HEAD_OPEN@ + ui_script + HEAD_BETWEEN@ + css + HEAD_CLOSE@
}

pub fn head(ui_script: &str, css: &str) -> (r: String)
    ensures
        r@ == head_text(ui_script@, css@),
{
    let mut out = String::from_str(HEAD_OPEN);
    out.append(ui_script);
    out.append(HEAD_BETWEEN);
    out.append(css);
    out.append(HEAD_CLOSE);
    out
}

pub fn postlude() -> (r: String)
    ensures
        r@ == "</html>\n"@,
{
    String::from_str("</html>\n")
}

pub fn body_prelude() -> (r: String)
    ensures
        r@ == "<body>\n"@,
{
    String::from_str("<body>\n")
}

pub fn body_postlude() -> (r: String)
    ensures
        r@ == "\n</body>\n"@,
{
    String::from_str("\n</body>\n")
}

/// The banner that names the epic; it opens the page's wrapper.
pub open spec fn nav_text(epic: Epic) -> Seq<char> {
    "<div class='wrapper'><nav><h1>Epic: "@ + epic.name@ + "</h1></nav>"@
}

pub fn nav(epic: &Epic) -> (r: String)
    ensures
        r@ == nav_text(*epic),
{
    let mut out = String::from_str("<div class='wrapper'><nav><h1>Epic: ");
    out.append(epic.name.as_str());
    out.append("</h1></nav>");
    out
}

/// The footer with the time of generation; it closes the page's wrapper.
pub open spec fn footer_text(generated_on: Seq<char>) -> Seq<char> {
    "</div><footer><p>generated on: "@ + generated_on + "</p></footer>"@
}

pub fn footer(generated_on: &str) -> (r: String)
    ensures
        r@ == footer_text(generated_on@),
{
    let mut out = String::from_str("</div><footer><p>generated on: ");
    out.append(generated_on);
    out.append("</p></footer>");
    out
}

/// The detail blocks of the stories, in input order.
pub open spec fn all_details_text(stories: Seq<Story>, epic_name: Seq<char>) -> Seq<char>
    decreases stories.len(),
{
    if stories.len() == 0 {
        seq![]
    } else {
        all_details_text(stories.drop_last(), epic_name) + details_text(stories.last(), epic_name)
    }
}

/// The panel of detail blocks, then the graph document inside the diagram container.
pub open spec fn main_text(epic: Epic, stories: Seq<Story>) -> Seq<char> {
    "<main>"@ + PANEL_OPEN@ + all_details_text(stories, epic.name@) + PANEL_CLOSE@ + "\n"@
        + DIAGRAM_OPEN@ + "\n"@ + graph_text(stories) + "\n"@ + DIAGRAM_CLOSE@ + "\n</main>"@
}

pub fn main_section(epic: &Epic, stories: &Vec<Story>) -> (r: String)
    ensures
        r@ == main_text(*epic, stories@),
{
    let dot_diagram = dot_representation(epic, stories);
    let mut out = String::from_str("<main>");
    out.append(PANEL_OPEN);
    let ghost head = out@;
    let mut i: usize = 0;
    while i < stories.len()
        invariant
            i <= stories.len(),
            out@ == head + all_details_text(stories@.take(i as int), epic.name@),
        decreases stories.len() - i,
    {
        let details = story_details(&stories[i], epic.name.as_str());
        out.append(details.as_str());
        proof {
            assert(stories@.take(i + 1).drop_last() =~= stories@.take(i as int));
        }
        i += 1;
    }
    proof {
        assert(stories@.take(i as int) =~= stories@);
    }
    out.append(PANEL_CLOSE);
    out.append("\n");
    out.append(DIAGRAM_OPEN);
    out.append("\n");
    out.append(dot_diagram.as_str());
    out.append("\n");
    out.append(DIAGRAM_CLOSE);
    out.append("\n</main>");
    out
}

/// The whole report, generated at the time `generated_on`.
pub open spec fn page_text(
    epic: Epic,
    stories: Seq<Story>,
    ui_script: Seq<char>,
    css: Seq<char>,
    generated_on: Seq<char>,
) -> Seq<char> {
    html_prelude_text() + "\n"@ + head_text(ui_script, css) + "\n"@ + "<body>\n"@ + "\n"@
        + nav_text(epic) + "\n"@ + main_text(epic, stories) + "\n"@ + footer_text(generated_on)
        + "\n"@ + "\n</body>\n"@ + "\n"@ + "</html>\n"@
}

fn append_line(out: &mut String, part: &str)
    ensures
        final(out)@ == old(out)@ + "\n"@ + part@,
{
    out.append("\n");
    out.append(part);
}

/// The report for the given page script, styles and time of generation.
pub fn generate_page_at(
    epic: &Epic,
    stories: &Vec<Story>,
    ui_script: &str,
    css: &str,
    generated_on: &str,
) -> (r: String)
    ensures
        r@ == page_text(*epic, stories@, ui_script@, css@, generated_on@),
{
    let mut out = prelude();
    append_line(&mut out, head(ui_script, css).as_str());
    append_line(&mut out, body_prelude().as_str());
    append_line(&mut out, nav(epic).as_str());
    append_line(&mut out, main_section(epic, stories).as_str());
    append_line(&mut out, footer(generated_on).as_str());
    append_line(&mut out, body_postlude().as_str());
    append_line(&mut out, postlude().as_str());
    out
}

/// The report, stamped with the current local time.
pub fn generate_page(epic: &Epic, stories: &Vec<Story>, ui_script: &str, css: &str) -> (r: String)
    ensures
        exists|generated_on: Seq<char>|
            r@ == #[trigger] page_text(*epic, stories@, ui_script@, css@, generated_on),
{
    let now = local_timestamp();
    generate_page_at(epic, stories, ui_script, css, now.as_str())
}

} // verus!
