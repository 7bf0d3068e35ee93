//! Renders stories as a directed graph in a diagram-description language.
use vstd::prelude::*;
use crate::decimal::{decimal, decimal_text};
use crate::epic_info::{Blocker, Epic, Story, StoryState};
use crate::references::{get_ticket_numbers_from_blocker_description, reference_ids, texts};

verus! {

/// A style class of the graph; each story state falls into one.
#[derive(Clone, Copy, Debug, PartialEq, Eq, Structural)]
pub enum Bucket {
    Grey,
    Blue,
    Yellow,
    Green,
    Red,
}

impl Bucket {
    pub open spec fn name_spec(self) -> Seq<char> {
        match self {
            Bucket::Grey => "GREY"@,
            Bucket::Blue => "BLUE"@,
            Bucket::Yellow => "YELLOW"@,
            Bucket::Green => "GREEN"@,
            Bucket::Red => "RED"@,
        }
    }

    /// The class name that node declarations use.
    pub fn name(&self) -> (r: &'static str)
        ensures
            r@ == self.name_spec(),
    {
        match self {
            Bucket::Grey => "GREY",
            Bucket::Blue => "BLUE",
            Bucket::Yellow => "YELLOW",
            Bucket::Green => "GREEN",
            Bucket::Red => "RED",
        }
    }

    pub open spec fn fill_spec(self) -> Seq<char> {
        match self {
            Bucket::Grey => "#e0e2e5"@,
            Bucket::Blue => "#507bbd"@,
            Bucket::Yellow => "#f5b04f"@,
            Bucket::Green => "#94c37f"@,
            Bucket::Red => "#e87450"@,
        }
    }

    pub fn fill(&self) -> (r: &'static str)
        ensures
            r@ == self.fill_spec(),
    {
        match self {
            Bucket::Grey => "#e0e2e5",
            Bucket::Blue => "#507bbd",
            Bucket::Yellow => "#f5b04f",
            Bucket::Green => "#94c37f",
            Bucket::Red => "#e87450",
        }
    }

    pub open spec fn stroke_spec(self) -> Seq<char> {
        match self {
            Bucket::Grey => "#c4c5c5"@,
            Bucket::Blue => "#2959a4"@,
            Bucket::Yellow => "#fc9d17"@,
            Bucket::Green => "#5fa640"@,
            Bucket::Red => "#ec4d22"@,
        }
    }

    pub fn stroke(&self) -> (r: &'static str)
        ensures
            r@ == self.stroke_spec(),
    {
        match self {
            Bucket::Grey => "#c4c5c5",
            Bucket::Blue => "#2959a4",
            Bucket::Yellow => "#fc9d17",
            Bucket::Green => "#5fa640",
            Bucket::Red => "#ec4d22",
        }
    }

    /// The colour of a node's text: black on grey, white elsewhere.
    pub open spec fn text_colour_spec(self) -> Seq<char> {
        match self {
            Bucket::Grey => "#000"@,
            _ => "#fff"@,
        }
    }

    pub fn text_colour(&self) -> (r: &'static str)
        ensures
            r@ == self.text_colour_spec(),
    {
        match self {
            Bucket::Grey => "#000",
            _ => "#fff",
        }
    }
}

/// The bucket that colours a story in a given state.
pub open spec fn bucket_of_spec(state: StoryState) -> Bucket {
    match state {
        StoryState::Accepted | StoryState::Delivered | StoryState::Finished => Bucket::Green,
        StoryState::Started => Bucket::Blue,
        StoryState::Rejected => Bucket::Red,
        StoryState::Planned | StoryState::Unstarted | StoryState::Unscheduled => Bucket::Grey,
    }
}

pub fn bucket_of(state: StoryState) -> (r: Bucket)
    ensures
        r == bucket_of_spec(state),
{
    match state {
        StoryState::Accepted | StoryState::Delivered | StoryState::Finished => Bucket::Green,
        StoryState::Started => Bucket::Blue,
        StoryState::Rejected => Bucket::Red,
        StoryState::Planned | StoryState::Unstarted | StoryState::Unscheduled => Bucket::Grey,
    }
}

/// The style-class declaration of a bucket.
pub open spec fn class_def_text(b: Bucket) -> Seq<char> {
    "\tclassDef "@ + b.name_spec() + " fill:"@ + b.fill_spec() + ",stroke:"@ + b.stroke_spec()
        + ",color:"@ + b.text_colour_spec() + ";\n"@
}

/// The graph header and the legend: one class declaration per bucket, always all five.
pub open spec fn prelude_text() -> Seq<char> {
    "graph TD\n"@ + class_def_text(Bucket::Grey) + class_def_text(Bucket::Blue) + class_def_text(
        Bucket::Yellow,
    ) + class_def_text(Bucket::Green) + class_def_text(Bucket::Red) + "\n"@
}

fn append_class_def(out: &mut String, b: Bucket)
    ensures
        final(out)@ == old(out)@ + class_def_text(b),
{
    out.append("\tclassDef ");
    out.append(b.name());
    out.append(" fill:");
    out.append(b.fill());
    out.append(",stroke:");
    out.append(b.stroke());
    out.append(",color:");
    out.append(b.text_colour());
    out.append(";\n");
}

/// The graph header and legend.
pub fn prelude() -> (r: String)
    ensures
        r@ == prelude_text(),
{
    let mut out = String::from_str("graph TD\n");
    append_class_def(&mut out, Bucket::Grey);
    append_class_def(&mut out, Bucket::Blue);
    append_class_def(&mut out, Bucket::Yellow);
    append_class_def(&mut out, Bucket::Green);
    append_class_def(&mut out, Bucket::Red);
    out.append("\n");
    out
}

/// One line of a story's part of the graph.
pub enum GraphLine {
    /// The node of a story, tagged with its style class.
    Node { id: u64, bucket: Bucket },
    /// The binding of a node to the page's click callback.
    Click { id: u64 },
    /// An edge from the referenced (blocking) identifier to the blocked story.
    Edge { from: Seq<char>, to: u64 },
    /// The empty line that closes a story.
    Blank,
}

pub open spec fn line_text(l: GraphLine) -> Seq<char> {
    match l {
        GraphLine::Node { id, bucket } => "\t"@ + decimal(id as nat) + ":::"@ + bucket.name_spec()
            + "\n"@,
        GraphLine::Click { id } => "\tclick "@ + decimal(id as nat)
            + " call ticketNodeCallback()\n"@,
        GraphLine::Edge { from, to } => "\t"@ + from + " --> "@ + decimal(to as nat) + "\n"@,
        GraphLine::Blank => "\n"@,
    }
}

/// The text of a sequence of lines, one after the other.
pub open spec fn lines_text(lines: Seq<GraphLine>) -> Seq<char>
    decreases lines.len(),
{
    if lines.len() == 0 {
        seq![]
    } else {
        lines_text(lines.drop_last()) + line_text(lines.last())
    }
}

/// One edge to the story `id` from each reference, in order.
pub open spec fn reference_edges(refs: Seq<Seq<char>>, id: u64) -> Seq<GraphLine> {
    refs.map_values(|r: Seq<char>| GraphLine::Edge { from: r, to: id })
}

/// The edges of the story `id`: blockers in order, and the references of each in order.
pub open spec fn blocker_edges(blockers: Seq<Blocker>, id: u64) -> Seq<GraphLine>
    decreases blockers.len(),
{
    if blockers.len() == 0 {
        seq![]
    } else {
        blocker_edges(blockers.drop_last(), id) + reference_edges(
            reference_ids(blockers.last().description@),
            id,
        )
    }
}

pub open spec fn story_edges(story: Story) -> Seq<GraphLine> {
    match story.blockers {
        Some(blockers) => blocker_edges(blockers@, story.id),
        None => seq![],
    }
}

/// A story's lines: its node, its click binding, its edges and a closing empty line.
pub open spec fn story_lines(story: Story) -> Seq<GraphLine> {
    seq![
        GraphLine::Node { id: story.id, bucket: bucket_of_spec(story.current_state) },
        GraphLine::Click { id: story.id },
    ] + story_edges(story) + seq![GraphLine::Blank]
}

pub open spec fn story_text(story: Story) -> Seq<char> {
    lines_text(story_lines(story))
}

/// The stories' texts, in input order.
pub open spec fn stories_text(stories: Seq<Story>) -> Seq<char>
    decreases stories.len(),
{
    if stories.len() == 0 {
        seq![]
    } else {
        stories_text(stories.drop_last()) + story_text(stories.last())
    }
}

/// The whole graph document.
pub open spec fn graph_text(stories: Seq<Story>) -> Seq<char> {
    prelude_text() + "\n"@ + stories_text(stories)
}

/// Appending a line appends its text.
pub proof fn lemma_lines_text_push(lines: Seq<GraphLine>, l: GraphLine)
    ensures
        lines_text(lines.push(l)) == lines_text(lines) + line_text(l),
{
    assert(lines.push(l).drop_last() =~= lines);
}

/// How many references the blockers hold in all.
pub open spec fn reference_count(blockers: Seq<Blocker>) -> nat
    decreases blockers.len(),
{
    if blockers.len() == 0 {
        0
    } else {
        reference_count(blockers.drop_last()) + reference_ids(blockers.last().description@).len()
    }
}

/// How many references a story's blockers hold; none where it has no blocker list.
pub open spec fn story_reference_count(story: Story) -> nat {
    match story.blockers {
        Some(blockers) => reference_count(blockers@),
        None => 0,
    }
}

proof fn lemma_blocker_edges_shape(blockers: Seq<Blocker>, id: u64)
    ensures
        blocker_edges(blockers, id).len() == reference_count(blockers),
        forall|i: int|
            0 <= i < reference_count(blockers) ==> ((#[trigger] blocker_edges(blockers, id)[i])
                matches GraphLine::Edge { to, .. } && to == id),
    decreases blockers.len(),
{
    if blockers.len() > 0 {
        lemma_blocker_edges_shape(blockers.drop_last(), id);
    }
}

/// A story renders exactly one node declaration, then exactly one click binding, then one
/// edge per reference of its blockers, then an empty line; nothing else.
pub proof fn lemma_story_line_counts(story: Story)
    ensures
        story_lines(story).len() == story_reference_count(story) + 3,
        story_lines(story)[0] == (GraphLine::Node {
            id: story.id,
            bucket: bucket_of_spec(story.current_state),
        }),
        story_lines(story)[1] == (GraphLine::Click { id: story.id }),
        forall|i: int|
            0 <= i < story_lines(story).len() ==> {
                &&& (#[trigger] story_lines(story)[i] is Node <==> i == 0)
                &&& (story_lines(story)[i] is Click <==> i == 1)
                &&& (story_lines(story)[i] is Edge <==> 2 <= i < story_reference_count(story) + 2)
                &&& (story_lines(story)[i] is Blank <==> i == story_reference_count(story) + 2)
            },
        forall|i: int|
            2 <= i < story_reference_count(story) + 2 ==> ((#[trigger] story_lines(story)[i])
                matches GraphLine::Edge { to, .. } && to == story.id),
{
    if let Some(blockers) = story.blockers {
        lemma_blocker_edges_shape(blockers@, story.id);
    }
    let n = story_reference_count(story) as int;
    let lines = story_lines(story);
    assert forall|i: int| 2 <= i < n + 2 implies #[trigger] lines[i] == story_edges(story)[i - 2] by {}
}

proof fn lemma_reference_edge_present(blockers: Seq<Blocker>, id: u64, j: int, k: int)
    requires
        0 <= j < blockers.len(),
        0 <= k < reference_ids(blockers[j].description@).len(),
    ensures
        blocker_edges(blockers, id).contains(
            GraphLine::Edge { from: reference_ids(blockers[j].description@)[k], to: id },
        ),
    decreases blockers.len(),
{
    let edge = GraphLine::Edge { from: reference_ids(blockers[j].description@)[k], to: id };
    let prev = blocker_edges(blockers.drop_last(), id);
    let last = reference_edges(reference_ids(blockers.last().description@), id);
    if j == blockers.len() - 1 {
        assert(blocker_edges(blockers, id)[prev.len() + k] == edge);
    } else {
        assert(blockers.drop_last()[j] == blockers[j]);
        lemma_reference_edge_present(blockers.drop_last(), id, j, k);
        let i = choose|i: int| 0 <= i < prev.len() && prev[i] == edge;
        assert(blocker_edges(blockers, id)[i] == edge);
    }
}

/// The text of each line stands, whole, in the text of the lines.
pub proof fn lemma_line_in_text(lines: Seq<GraphLine>, i: int)
    requires
        0 <= i < lines.len(),
    ensures
        exists|p: int|
            0 <= p && p + line_text(lines[i]).len() <= lines_text(lines).len() && #[trigger] lines_text(
                lines,
            ).subrange(p, p + line_text(lines[i]).len()) == line_text(lines[i]),
    decreases lines.len(),
{
    let t = line_text(lines[i]);
    let prev = lines_text(lines.drop_last());
    if i == lines.len() - 1 {
        assert(lines_text(lines).subrange(prev.len() as int, (prev.len() + t.len()) as int) =~= t);
    } else {
        lemma_line_in_text(lines.drop_last(), i);
        let p = choose|p: int|
            0 <= p && p + t.len() <= prev.len() && #[trigger] prev.subrange(p, p + t.len()) == t;
        assert(lines_text(lines).subrange(p, p + t.len()) =~= prev.subrange(p, p + t.len()));
    }
}

/// Edges run from the blocker to the blocked story: for each reference `R` that a blocker of
/// story `S` yields, the story's text holds the line `\tR --> S\n`.
pub proof fn lemma_edge_direction(story: Story, j: int, k: int)
    requires
        story.blockers is Some,
        0 <= j < story.blockers->0@.len(),
        0 <= k < reference_ids(story.blockers->0@[j].description@).len(),
    ensures
        ({
            let edge = "\t"@ + reference_ids(story.blockers->0@[j].description@)[k] + " --> "@
                + decimal(story.id as nat) + "\n"@;
            exists|p: int|
                0 <= p && p + edge.len() <= story_text(story).len() && #[trigger] story_text(
                    story,
                ).subrange(p, p + edge.len()) == edge
        }),
{
    let blockers = story.blockers->0@;
    let from = reference_ids(blockers[j].description@)[k];
    let line = GraphLine::Edge { from, to: story.id };
    lemma_reference_edge_present(blockers, story.id, j, k);
    let edges = blocker_edges(blockers, story.id);
    let e = choose|e: int| 0 <= e < edges.len() && edges[e] == line;
    let lines = story_lines(story);
    assert(lines[e + 2] == line);
    lemma_line_in_text(lines, e + 2);
    let t = line_text(line);
    let p = choose|p: int|
        0 <= p && p + t.len() <= lines_text(lines).len() && #[trigger] lines_text(lines).subrange(
            p,
            p + t.len(),
        ) == t;
    assert(story_text(story).subrange(p, p + t.len()) == t);
}

/// Whether two stories agree in all that their graph lines read: identifier, state, and the
/// descriptions of their blockers in order.
pub open spec fn same_graph_content(a: Story, b: Story) -> bool {
    &&& a.id == b.id
    &&& a.current_state == b.current_state
    &&& match (a.blockers, b.blockers) {
        (None, None) => true,
        (Some(x), Some(y)) => x@.len() == y@.len() && forall|i: int|
            0 <= i < x@.len() ==> (#[trigger] x@[i]).description@ == y@[i].description@,
        _ => false,
    }
}

proof fn lemma_blocker_edges_same(x: Seq<Blocker>, y: Seq<Blocker>, id: u64)
    requires
        x.len() == y.len(),
        forall|i: int| 0 <= i < x.len() ==> (#[trigger] x[i]).description@ == y[i].description@,
    ensures
        blocker_edges(x, id) == blocker_edges(y, id),
    decreases x.len(),
{
    if x.len() > 0 {
        lemma_blocker_edges_same(x.drop_last(), y.drop_last(), id);
        assert(x.last().description@ == y.last().description@);
    }
}

proof fn lemma_stories_text_same(a: Seq<Story>, b: Seq<Story>)
    requires
        a.len() == b.len(),
        forall|i: int| 0 <= i < a.len() ==> same_graph_content(#[trigger] a[i], b[i]),
    ensures
        stories_text(a) == stories_text(b),
    decreases a.len(),
{
    if a.len() > 0 {
        let (x, y) = (a.last(), b.last());
        assert forall|i: int| 0 <= i < a.len() - 1 implies same_graph_content(
            #[trigger] a.drop_last()[i],
            b.drop_last()[i],
        ) by {
            assert(same_graph_content(a[i], b[i]));
        }
        lemma_stories_text_same(a.drop_last(), b.drop_last());
        assert(same_graph_content(a[a.len() - 1], b[a.len() - 1]));
        if let (Some(bx), Some(by)) = (x.blockers, y.blockers) {
            lemma_blocker_edges_same(bx@, by@, x.id);
        }
        assert(story_lines(x) == story_lines(y));
    }
}

/// Rendering reads nothing but the stories' graph content, in order: rendering the same input
/// again, or an input that agrees with it story by story, gives the same document byte for
/// byte.
pub proof fn lemma_render_repeatable(a: Seq<Story>, b: Seq<Story>)
    requires
        a.len() == b.len(),
        forall|i: int| 0 <= i < a.len() ==> same_graph_content(#[trigger] a[i], b[i]),
    ensures
        graph_text(a) == graph_text(b),
{
    lemma_stories_text_same(a, b);
}

/// A story without blockers renders no edge, whether its blocker list is absent or empty.
pub proof fn lemma_no_blockers_no_edges(story: Story)
    requires
        story.blockers matches Some(blockers) ==> blockers@.len() == 0,
    ensures
        story_lines(story) == seq![
            GraphLine::Node { id: story.id, bucket: bucket_of_spec(story.current_state) },
            GraphLine::Click { id: story.id },
            GraphLine::Blank,
        ],
{
    assert(story_edges(story) =~= Seq::<GraphLine>::empty());
    assert(story_lines(story) =~= seq![
        GraphLine::Node { id: story.id, bucket: bucket_of_spec(story.current_state) },
        GraphLine::Click { id: story.id },
        GraphLine::Blank,
    ]);
}

fn append_edge(out: &mut String, from: &str, id_text: &str, Ghost(to): Ghost<u64>)
    requires
        id_text@ == decimal(to as nat),
    ensures
        final(out)@ == old(out)@ + line_text(GraphLine::Edge { from: from@, to }),
{
    out.append("\t");
    out.append(from);
    out.append(" --> ");
    out.append(id_text);
    out.append("\n");
}

/// The lines of one story: node, click binding, one edge per reference of each blocker, and
/// an empty line.
pub fn story_node(story: &Story) -> (r: String)
    ensures
        r@ == story_text(*story),
{
    let id = decimal_text(story.id);
    let bucket = bucket_of(story.current_state);
    let ghost node = GraphLine::Node { id: story.id, bucket };
    let ghost click = GraphLine::Click { id: story.id };
    let mut out = String::from_str("\t");
    out.append(id.as_str());
    out.append(":::");
    out.append(bucket.name());
    out.append("\n");
    out.append("\tclick ");
    out.append(id.as_str());
    out.append(" call ticketNodeCallback()\n");
    let ghost head = seq![node, click];
    proof {
        lemma_lines_text_push(seq![], node);
        lemma_lines_text_push(seq![node], click);
        assert(seq![node].push(click) =~= head);
        assert(seq![].push(node) =~= seq![node]);
    }
    match &story.blockers {
        Some(blockers) => {
            let mut j: usize = 0;
            while j < blockers.len()
                invariant
                    j <= blockers.len(),
                    id@ == decimal(story.id as nat),
                    out@ == lines_text(head + blocker_edges(blockers@.take(j as int), story.id)),
                decreases blockers.len() - j,
            {
                let refs = get_ticket_numbers_from_blocker_description(
                    blockers[j].description.as_str(),
                );
                let ghost done = head + blocker_edges(blockers@.take(j as int), story.id);
                let mut k: usize = 0;
                while k < refs.len()
                    invariant
                        k <= refs.len(),
                        id@ == decimal(story.id as nat),
                        out@ == lines_text(
                            done + reference_edges(texts(refs@).take(k as int), story.id),
                        ),
                    decreases refs.len() - k,
                {
                    let ghost edge = GraphLine::Edge { from: refs[k as int]@, to: story.id };
                    append_edge(&mut out, refs[k].as_str(), id.as_str(), Ghost(story.id));
                    proof {
                        let before = done + reference_edges(texts(refs@).take(k as int), story.id);
                        lemma_lines_text_push(before, edge);
                        assert(before.push(edge) =~= done + reference_edges(
                            texts(refs@).take(k + 1),
                            story.id,
                        ));
                    }
                    k += 1;
                }
                proof {
                    let taken = blockers@.take(j + 1);
                    assert(taken.drop_last() =~= blockers@.take(j as int));
                    assert(texts(refs@).take(k as int) =~= texts(refs@));
                    assert(done + reference_edges(texts(refs@), story.id) =~= head
                        + blocker_edges(taken, story.id));
                }
                j += 1;
            }
            proof {
                assert(blockers@.take(j as int) =~= blockers@);
            }
        },
        None => {},
    }
    proof {
        lemma_lines_text_push(head + story_edges(*story), GraphLine::Blank);
        assert((head + story_edges(*story)).push(GraphLine::Blank) =~= story_lines(*story));
    }
    out.append("\n");
    out
}

/// The graph document of the stories: header, legend, then each story in input order.
pub fn dot_representation(_epic: &Epic, stories: &Vec<Story>) -> (r: String)
    ensures
        r@ == graph_text(stories@),
{
    let mut out = prelude();
    out.append("\n");
    let mut i: usize = 0;
    while i < stories.len()
        invariant
            i <= stories.len(),
            out@ == prelude_text() + "\n"@ + stories_text(stories@.take(i as int)),
        decreases stories.len() - i,
    {
        let node = story_node(&stories[i]);
        out.append(node.as_str());
        proof {
            assert(stories@.take(i + 1).drop_last() =~= stories@.take(i as int));
        }
        i += 1;
    }
    proof {
        assert(stories@.take(i as int) =~= stories@);
    }
    out
}

} // verus!
