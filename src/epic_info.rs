use vstd::prelude::*;

verus! {

/// A top-level grouping of stories.
#[derive(Debug)]
pub struct Epic {
    pub id: u64,
    pub project_id: u64,
    pub name: String,
}

/// The workflow state of a story.
#[derive(Clone, Copy, Debug, PartialEq, Eq, Structural)]
pub enum StoryState {
    Accepted,
    Delivered,
    Finished,
    Started,
    Rejected,
    Planned,
    Unstarted,
    Unscheduled,
}

impl StoryState {
    /// The variant's name, as the report shows it.
    pub open spec fn name_spec(self) -> Seq<char> {
        match self {
            StoryState::Accepted => "Accepted"@,
            StoryState::Delivered => "Delivered"@,
            StoryState::Finished => "Finished"@,
            StoryState::Started => "Started"@,
            StoryState::Rejected => "Rejected"@,
            StoryState::Planned => "Planned"@,
            StoryState::Unstarted => "Unstarted"@,
            StoryState::Unscheduled => "Unscheduled"@,
        }
    }

    pub fn name(&self) -> (r: &'static str)
        ensures
            r@ == self.name_spec(),
    {
        match self {
            StoryState::Accepted => "Accepted",
            StoryState::Delivered => "Delivered",
            StoryState::Finished => "Finished",
            StoryState::Started => "Started",
            StoryState::Rejected => "Rejected",
            StoryState::Planned => "Planned",
            StoryState::Unstarted => "Unstarted",
            StoryState::Unscheduled => "Unscheduled",
        }
    }
}

/// A work item of an epic, with its blockers and labels once they are fetched.
#[derive(Debug)]
pub struct Story {
    pub id: u64,
    pub project_id: u64,
    pub name: String,
    pub url: String,
    pub current_state: StoryState,
    pub blockers: Option<Vec<Blocker>>,
    pub labels: Option<Vec<Label>>,
}

/// A recorded dependency of a story, as free text that may name other stories.
#[derive(Debug)]
pub struct Blocker {
    pub id: u64,
    pub story_id: u64,
    pub description: String,
}

/// A label attached to a story.
#[derive(Debug)]
pub struct Label {
    pub id: u64,
    pub kind: String,
    pub name: String,
}

} // verus!
