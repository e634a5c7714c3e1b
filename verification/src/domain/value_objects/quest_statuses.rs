use vstd::prelude::*;

verus! {

/// Where a quest stands in its lifecycle.
#[derive(Clone, Copy, Debug, PartialEq, Eq, Structural)]
pub enum QuestStatuses {
    Open,
    InJourney,
    Completed,
    Failed,
}

impl QuestStatuses {
    /// The roster of a quest may change exactly while the quest recruits:
    /// before its first journey and after a failed one.
    pub open spec fn is_recruiting(self) -> bool {
        self is Open || self is Failed
    }

    /// No event leads out of a terminal status.
    pub open spec fn is_terminal(self) -> bool {
        self is Completed
    }

    /// The name under which a status is stored and shown.
    pub open spec fn label(self) -> Seq<char> {
        match self {
            QuestStatuses::Open => "Open"@,
            QuestStatuses::InJourney => "InJourney"@,
            QuestStatuses::Completed => "Completed"@,
            QuestStatuses::Failed => "Failed"@,
        }
    }

    /// The status that a stored name stands for, if it is one of the four.
    pub open spec fn from_label(text: Seq<char>) -> Option<QuestStatuses> {
        if text == "Open"@ {
            Some(QuestStatuses::Open)
        } else if text == "InJourney"@ {
            Some(QuestStatuses::InJourney)
        } else if text == "Completed"@ {
            Some(QuestStatuses::Completed)
        } else if text == "Failed"@ {
            Some(QuestStatuses::Failed)
        } else {
            None
        }
    }

    /// Whether adventurers may join or leave a quest in this status.
    pub fn allows_roster_changes(&self) -> (b: bool)
        ensures
            b == self.is_recruiting(),
    {
        match self {
            QuestStatuses::Open => true,
            QuestStatuses::Failed => true,
            QuestStatuses::InJourney => false,
            QuestStatuses::Completed => false,
        }
    }

    /// The stored name of this status.
    pub fn to_string(&self) -> (s: String)
        ensures
            s@ == self.label(),
    {
        match self {
            QuestStatuses::Open => "Open".to_owned(),
            QuestStatuses::InJourney => "InJourney".to_owned(),
            QuestStatuses::Completed => "Completed".to_owned(),
            QuestStatuses::Failed => "Failed".to_owned(),
        }
    }

    /// Reads a stored name back. Names are matched exactly; anything else is
    /// no status.
    pub fn parse(text: &str) -> (r: Option<QuestStatuses>)
        ensures
            r == Self::from_label(text@),
    {
        let owned = text.to_owned();
        if owned == "Open".to_owned() {
            Some(QuestStatuses::Open)
        } else if owned == "InJourney".to_owned() {
            Some(QuestStatuses::InJourney)
        } else if owned == "Completed".to_owned() {
            Some(QuestStatuses::Completed)
        } else if owned == "Failed".to_owned() {
            Some(QuestStatuses::Failed)
        } else {
            None
        }
    }

    /// Every status is read back from its own stored name.
    pub proof fn lemma_label_round_trip(status: QuestStatuses)
        ensures
            Self::from_label(status.label()) == Some(status),
    {
        reveal_strlit("Open");
        reveal_strlit("InJourney");
        reveal_strlit("Completed");
        reveal_strlit("Failed");
        assert("Open"@.len() == 4);
        assert("InJourney"@.len() == 9);
        assert("Completed"@.len() == 9);
        assert("Failed"@.len() == 6);
        assert("InJourney"@[0] == 'I');
        assert("Completed"@[0] == 'C');
    }
}

impl Default for QuestStatuses {
    /// A quest starts out open.
    fn default() -> (s: Self)
        ensures
            s == QuestStatuses::Open,
    {
        QuestStatuses::Open
    }
}

} // verus!
