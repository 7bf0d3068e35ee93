//! Finds the stories that a blocker's free text refers to.
use vstd::prelude::*;

verus! {

/// An ASCII decimal digit.
pub open spec fn is_digit(c: char) -> bool {
    '0' <= c && c <= '9'
}

/// The length of the run of digits that opens `s`.
pub open spec fn digit_run(s: Seq<char>) -> nat
    decreases s.len(),
{
    if s.len() > 0 && is_digit(s[0]) {
        1 + digit_run(s.drop_first())
    } else {
        0
    }
}

/// The digits that open `s`, as many as there are.
pub open spec fn leading_digits(s: Seq<char>) -> Seq<char> {
    s.take(digit_run(s) as int)
}

/// Whether `s` opens with `template`, where a `.` of the template stands for any character
/// but a line feed.
pub open spec fn fits(template: Seq<char>, s: Seq<char>) -> bool {
    &&& template.len() <= s.len()
    &&& forall|i: int|
        0 <= i < template.len() ==> (s[i] == template[i] || (template[i] == '.' && s[i] != '\n'))
}

/// A textual form in which a blocker names another story.
#[derive(Clone, Copy, Debug, PartialEq, Eq, Structural)]
pub enum ReferenceFormat {
    /// `#<digits>`
    ShortTag,
    /// `https://www.pivotaltracker.com/story/show/<digits>`
    StoryUrl,
    /// `https://www.pivotaltracker.com/n/projects/<digits>/stories/<digits>`
    ProjectStoryUrl,
}

impl ReferenceFormat {
    /// The regular expression that finds the format.
    pub open spec fn pattern_spec(self) -> Seq<char> {
        match self {
            ReferenceFormat::ShortTag => "\\#([0-9]+)"@,
            ReferenceFormat::StoryUrl => "https://www.pivotaltracker.com/story/show/([0-9]+)"@,
            ReferenceFormat::ProjectStoryUrl =>
                "https://www.pivotaltracker.com/n/projects/([0-9]+)/stories/([0-9]+)"@,
        }
    }

    pub fn pattern(&self) -> (r: &'static str)
        ensures
            r@ == self.pattern_spec(),
    {
        match self {
            ReferenceFormat::ShortTag => "\\#([0-9]+)",
            ReferenceFormat::StoryUrl => "https://www.pivotaltracker.com/story/show/([0-9]+)",
            ReferenceFormat::ProjectStoryUrl =>
                "https://www.pivotaltracker.com/n/projects/([0-9]+)/stories/([0-9]+)",
        }
    }

    /// The capture group of the pattern that holds the story's identifier.
    pub open spec fn id_group_spec(self) -> usize {
        match self {
            ReferenceFormat::ProjectStoryUrl => 2,
            _ => 1,
        }
    }

    pub fn id_group(&self) -> (r: usize)
        ensures
            r == self.id_group_spec(),
    {
        match self {
            ReferenceFormat::ProjectStoryUrl => 2,
            _ => 1,
        }
    }

    /// The fixed text that opens a match of the pattern, where `.` stands for any character
    /// but a line feed.
    pub open spec fn lead(self) -> Seq<char> {
        match self {
            ReferenceFormat::ShortTag => seq!['#'],
            ReferenceFormat::StoryUrl => "https://www.pivotaltracker.com/story/show/"@,
            ReferenceFormat::ProjectStoryUrl => "https://www.pivotaltracker.com/n/projects/"@,
        }
    }
}

/// The text between the project's digits and the story's digits of a project-scoped URL.
pub open spec fn project_stories_infix() -> Seq<char> {
    "/stories/"@
}

/// The match of `f` that starts at the first character of `s`, if there is one: how many
/// characters it covers, and the identifier that it captures.
pub open spec fn match_at(f: ReferenceFormat, s: Seq<char>) -> Option<(nat, Seq<char>)> {
    let lead = f.lead();
    let after = s.skip(lead.len() as int);
    let first = digit_run(after);
    if !fits(lead, s) || first == 0 {
        None
    } else if f is ProjectStoryUrl {
        let infix = project_stories_infix();
        let rest = after.skip(first as int);
        let story = rest.skip(infix.len() as int);
        if fits(infix, rest) && digit_run(story) > 0 {
            Some(((lead.len() + first + infix.len() + digit_run(story)) as nat, leading_digits(story)))
        } else {
            None
        }
    } else {
        Some(((lead.len() + first) as nat, leading_digits(after)))
    }
}

/// A run of digits never outgrows its text.
pub proof fn lemma_digit_run_bound(s: Seq<char>)
    ensures
        digit_run(s) <= s.len(),
    decreases s.len(),
{
    if s.len() > 0 && is_digit(s[0]) {
        lemma_digit_run_bound(s.drop_first());
    }
}

/// A match covers at least one character, and no more than there are.
pub proof fn lemma_match_len(f: ReferenceFormat, s: Seq<char>)
    ensures
        match_at(f, s) matches Some((n, _)) ==> 0 < n <= s.len(),
{
    let lead = f.lead();
    let after = s.skip(lead.len() as int);
    lemma_digit_run_bound(after);
    if f is ProjectStoryUrl {
        let first = digit_run(after);
        let rest = after.skip(first as int);
        lemma_digit_run_bound(rest.skip(project_stories_infix().len() as int));
    }
}

/// The identifiers that the matches of `f` in `s` capture: leftmost match first, the search
/// going on after the end of each match.
pub open spec fn references_in(f: ReferenceFormat, s: Seq<char>) -> Seq<Seq<char>>
    decreases s.len(),
{
    if s.len() == 0 {
        seq![]
    } else {
        match match_at(f, s) {
            Some((n, id)) => {
                proof {
                    lemma_match_len(f, s);
                }
                seq![id] + references_in(f, s.skip(n as int))
            },
            None => references_in(f, s.drop_first()),
        }
    }
}

/// The identifiers that a blocker description refers to: all short tags, then all story URLs,
/// then all project-scoped URLs.
pub open spec fn reference_ids(s: Seq<char>) -> Seq<Seq<char>> {
    references_in(ReferenceFormat::ShortTag, s) + references_in(ReferenceFormat::StoryUrl, s)
        + references_in(ReferenceFormat::ProjectStoryUrl, s)
}

/// Whether a short tag starts at position `i` of `s`: a `#` followed by a digit.
pub open spec fn tag_at(s: Seq<char>, i: int) -> bool {
    0 <= i && i + 1 < s.len() && s[i] == '#' && is_digit(s[i + 1])
}

/// One entry for each short tag in `s`, from left to right: the digits that follow its `#`.
pub open spec fn tag_ids(s: Seq<char>) -> Seq<Seq<char>>
    decreases s.len(),
{
    if s.len() == 0 {
        seq![]
    } else if tag_at(s, 0) {
        seq![leading_digits(s.drop_first())] + tag_ids(s.drop_first())
    } else {
        tag_ids(s.drop_first())
    }
}

proof fn lemma_tag_ids_skip(s: Seq<char>, j: int)
    requires
        0 <= j <= s.len(),
        forall|i: int| 0 <= i < j ==> s[i] != '#',
    ensures
        tag_ids(s) == tag_ids(s.skip(j)),
    decreases j,
{
    if j == 0 {
        assert(s.skip(0) =~= s);
    } else {
        assert(s.drop_first().skip(j - 1) =~= s.skip(j));
        lemma_tag_ids_skip(s.drop_first(), j - 1);
    }
}

proof fn lemma_leading_digits(s: Seq<char>)
    ensures
        forall|i: int| 0 <= i < digit_run(s) ==> is_digit(#[trigger] s[i]),
    decreases s.len(),
{
    if s.len() > 0 && is_digit(s[0]) {
        lemma_leading_digits(s.drop_first());
        lemma_digit_run_bound(s);
        assert forall|i: int| 0 <= i < digit_run(s) implies is_digit(#[trigger] s[i]) by {
            if i > 0 {
                assert(s[i] == s.drop_first()[i - 1]);
            }
        }
    }
}

/// Every short tag is found, each once, from left to right, with all the digits that follow
/// its `#`: the short-tag matches are exactly `tag_ids(s)`.
pub proof fn lemma_short_tags_found(s: Seq<char>)
    ensures
        references_in(ReferenceFormat::ShortTag, s) == tag_ids(s),
    decreases s.len(),
{
    let f = ReferenceFormat::ShortTag;
    if s.len() > 0 {
        let after = s.skip(1);
        assert(after =~= s.drop_first());
        lemma_digit_run_bound(after);
        if tag_at(s, 0) {
            assert(fits(f.lead(), s));
            assert(digit_run(after) > 0);
            let n = 1 + digit_run(after) as int;
            lemma_match_len(f, s);
            lemma_short_tags_found(s.skip(n));
            lemma_leading_digits(after);
            lemma_tag_ids_skip(after, digit_run(after) as int);
            assert(after.skip(digit_run(after) as int) =~= s.skip(n));
        } else {
            if s.len() > 1 && s[0] == '#' {
                assert(!is_digit(after[0]));
            }
            assert(match_at(f, s) is None);
            lemma_short_tags_found(s.drop_first());
        }
    }
}

/// The short tags of a description are its first identifiers, one for each `#<digits>` from
/// left to right; with no URL in it, they are all of them.
pub proof fn lemma_short_tags_first(s: Seq<char>)
    ensures
        reference_ids(s).take(tag_ids(s).len() as int) == tag_ids(s),
        references_in(ReferenceFormat::StoryUrl, s).len() == 0
            && references_in(ReferenceFormat::ProjectStoryUrl, s).len() == 0 ==> reference_ids(s)
            == tag_ids(s),
{
    lemma_short_tags_found(s);
    assert(reference_ids(s).take(tag_ids(s).len() as int) =~= tag_ids(s));
}

/// Whether no format matches anywhere in `s`.
pub open spec fn no_reference(s: Seq<char>) -> bool {
    forall|f: ReferenceFormat, i: int| 0 <= i < s.len() ==> #[trigger] match_at(f, s.skip(i)) is None
}

proof fn lemma_no_match_no_reference(f: ReferenceFormat, s: Seq<char>)
    requires
        forall|i: int| 0 <= i < s.len() ==> #[trigger] match_at(f, s.skip(i)) is None,
    ensures
        references_in(f, s) == Seq::<Seq<char>>::empty(),
    decreases s.len(),
{
    if s.len() > 0 {
        assert(s.skip(0) =~= s);
        assert(match_at(f, s.skip(0)) is None);
        let t = s.drop_first();
        assert forall|i: int| 0 <= i < t.len() implies #[trigger] match_at(f, t.skip(i)) is None by {
            assert(t.skip(i) =~= s.skip(i + 1));
            assert(match_at(f, s.skip(i + 1)) is None);
        }
        lemma_no_match_no_reference(f, t);
    }
}

/// A description in which no format matches anywhere refers to nothing.
pub proof fn lemma_no_reference_empty(s: Seq<char>)
    requires
        no_reference(s),
    ensures
        reference_ids(s) == Seq::<Seq<char>>::empty(),
{
    lemma_no_match_no_reference(ReferenceFormat::ShortTag, s);
    lemma_no_match_no_reference(ReferenceFormat::StoryUrl, s);
    lemma_no_match_no_reference(ReferenceFormat::ProjectStoryUrl, s);
    assert(reference_ids(s) =~= Seq::<Seq<char>>::empty());
}

/// The texts held by a sequence of strings.
pub open spec fn texts(v: Seq<String>) -> Seq<Seq<char>> {
    v.map_values(|x: String| x@)
}

/// Relies on regex::Regex::new, which compiles each pattern of `ReferenceFormat`, and on
/// Regex::captures_iter, which yields the leftmost-first non-overlapping matches from left
/// to right; of each match the text of capture group `group` is kept.
#[verifier::external_body]
fn capture_all(pattern: &str, group: usize, text: &str) -> (r: Vec<String>)
    requires
        exists|f: ReferenceFormat| f.pattern_spec() == pattern@ && f.id_group_spec() == group,
    ensures
        forall|f: ReferenceFormat|
            f.pattern_spec() == pattern@ && f.id_group_spec() == group ==> texts(r@)
                == references_in(f, text@),
{
    let re = regex::Regex::new(pattern).unwrap();
    re.captures_iter(text).map(|c| c.get(group).map_or(String::new(), |m| m.as_str().to_owned())).collect()
}

fn references_of(f: ReferenceFormat, text: &str) -> (r: Vec<String>)
    ensures
        texts(r@) == references_in(f, text@),
{
    capture_all(f.pattern(), f.id_group(), text)
}

/// The identifiers that a blocker description refers to, in the order of `reference_ids`.
pub fn get_ticket_numbers_from_blocker_description(blocker_desc: &str) -> (r: Vec<String>)
    ensures
        texts(r@) == reference_ids(blocker_desc@),
{
    let mut tickets = references_of(ReferenceFormat::ShortTag, blocker_desc);
    let mut story_urls = references_of(ReferenceFormat::StoryUrl, blocker_desc);
    let mut project_urls = references_of(ReferenceFormat::ProjectStoryUrl, blocker_desc);
    let ghost (a, b, c) = (tickets@, story_urls@, project_urls@);
    tickets.append(&mut story_urls);
    tickets.append(&mut project_urls);
    assert(texts(a + b + c) == texts(a) + texts(b) + texts(c));
    tickets
}

} // verus!
