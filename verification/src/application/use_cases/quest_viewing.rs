use vstd::prelude::*;
use crate::domain::entities::quests::{QuestEntity, QuestEntityView};
use crate::domain::errors::QuestError;
use crate::domain::repositories::quest_store::{accepts, is_listing, lists, QuestStore};
use crate::domain::repositories::roster_store::{occupancy, RosterStore};
use crate::domain::value_objects::board_checking_filter::{
    BoardCheckingFilter,
    BoardCheckingFilterView,
};
use crate::domain::value_objects::quest_model::{QuestModel, QuestModelView};

verus! {

/// What the board shows of the quest `quest_id`: the stored quest with the
/// number of adventurers that the roster holds for it.
pub open spec fn board_view(
    quests: Map<int, QuestEntityView>,
    roster: Set<(int, int)>,
    quest_id: int,
) -> QuestModelView {
    quests[quest_id].to_model(occupancy(roster, quest_id))
}

/// The quest `quest_id` is among `views`.
pub open spec fn shows(views: Seq<QuestModel>, quest_id: int) -> bool {
    exists|i: int| 0 <= i < views.len() && (#[trigger] views[i]).id == quest_id
}

/// The quest board: quests as readers see them, each with its occupancy.
/// Viewing changes nothing in either store.
pub struct QuestViewingUseCase<T1, T2> where T1: QuestStore, T2: RosterStore {
    quest_viewing_repository: T1,
    crew_switchboard_repository: T2,
}

impl<T1, T2> QuestViewingUseCase<T1, T2> where T1: QuestStore, T2: RosterStore {
    /// Both stores keep their invariants.
    pub closed spec fn wf(&self) -> bool {
        self.quest_viewing_repository.wf() && self.crew_switchboard_repository.wf()
    }

    /// The quests that the board shows.
    pub closed spec fn quests(&self) -> Map<int, QuestEntityView> {
        self.quest_viewing_repository.quests()
    }

    /// The roster that the board counts.
    pub closed spec fn roster(&self) -> Set<(int, int)> {
        self.crew_switchboard_repository.roster()
    }

    /// Neither store fails on its own account.
    pub closed spec fn reliable(&self) -> bool {
        self.quest_viewing_repository.reliable() && self.crew_switchboard_repository.reliable()
    }

    /// Whether a quest passes a filter, texts being matched as the quest
    /// store matches them.
    pub closed spec fn accepts(&self, filter: BoardCheckingFilterView, quest: QuestEntityView) -> bool {
        accepts(self.quest_viewing_repository.text_matcher(), filter, quest)
    }

    /// `views` shows the quests that pass `filter`, each once and with the
    /// occupancy of its own quest, and nothing else.
    pub open spec fn is_board(&self, filter: BoardCheckingFilterView, views: Seq<QuestModel>) -> bool {
        &&& forall|i: int|
            0 <= i < views.len() ==> self.quests().contains_key((#[trigger] views[i]).id as int)
                && views[i]@ == board_view(self.quests(), self.roster(), views[i].id as int)
                && self.accepts(filter, self.quests()[views[i].id as int])
        &&& forall|i: int, j: int|
            0 <= i < j < views.len() ==> (#[trigger] views[i]).id != (#[trigger] views[j]).id
        &&& forall|quest_id: int|
            self.quests().contains_key(quest_id) && self.accepts(filter, self.quests()[quest_id])
                ==> #[trigger] shows(views, quest_id)
    }

    /// The views composed from a listing, one for one, are a board.
    proof fn lemma_views_of_listing(
        &self,
        filter: BoardCheckingFilterView,
        found: Seq<QuestEntity>,
        views: Seq<QuestModel>,
    )
        requires
            is_listing(
                self.quest_viewing_repository.quests(),
                self.quest_viewing_repository.text_matcher(),
                filter,
                found,
            ),
            views.len() == found.len(),
            forall|k: int|
                0 <= k < found.len() ==> (#[trigger] views[k]).id == found[k].id && views[k]@
                    == found[k]@.to_model(occupancy(self.roster(), found[k].id as int)),
        ensures
            self.is_board(filter, views),
    {
        assert forall|k: int| 0 <= k < views.len() implies self.quests().contains_key(
            (#[trigger] views[k]).id as int,
        ) && views[k]@ == board_view(self.quests(), self.roster(), views[k].id as int)
            && self.accepts(filter, self.quests()[views[k].id as int]) by {
            assert(found[k]@ == self.quests()[found[k].id as int]);
        }
        assert forall|a: int, b: int| 0 <= a < b < views.len() implies (#[trigger] views[a]).id != (
        #[trigger] views[b]).id by {
            assert(found[a].id != found[b].id);
        }
        assert forall|quest_id: int|
            self.quests().contains_key(quest_id) && self.accepts(
                filter,
                self.quests()[quest_id],
            ) implies #[trigger] shows(views, quest_id) by {
            assert(lists(found, quest_id));
            let k = choose|k: int| 0 <= k < found.len() && (#[trigger] found[k]).id == quest_id;
            assert(views[k].id == quest_id);
        }
    }

    /// A board over the two stores.
    pub fn new(quest_viewing_repository: T1, crew_switchboard_repository: T2) -> (board: Self)
        ensures
            board.wf() == (quest_viewing_repository.wf() && crew_switchboard_repository.wf()),
            board.reliable() == (quest_viewing_repository.reliable()
                && crew_switchboard_repository.reliable()),
            board.quests() == quest_viewing_repository.quests(),
            board.roster() == crew_switchboard_repository.roster(),
            forall|filter: BoardCheckingFilterView, quest: QuestEntityView|
                #[trigger] board.accepts(filter, quest) == accepts(
                    quest_viewing_repository.text_matcher(),
                    filter,
                    quest,
                ),
    {
        QuestViewingUseCase { quest_viewing_repository, crew_switchboard_repository }
    }

    /// Gives the two stores back.
    pub fn into_repositories(self) -> (stores: (T1, T2))
        ensures
            self.wf() == (stores.0.wf() && stores.1.wf()),
            self.reliable() == (stores.0.reliable() && stores.1.reliable()),
            stores.0.quests() == self.quests(),
            stores.1.roster() == self.roster(),
    {
        (self.quest_viewing_repository, self.crew_switchboard_repository)
    }

    /// The view of one stored quest: the quest with its occupancy.
    fn compose(&self, quest: &QuestEntity) -> (r: Result<QuestModel, QuestError>)
        requires
            self.wf(),
        ensures
            match r {
                Ok(model) => model@ == quest@.to_model(occupancy(self.roster(), quest.id as int)),
                Err(error) => error == QuestError::StorageUnavailable && !self.reliable(),
            },
    {
        match self.crew_switchboard_repository.count(quest.id) {
            Ok(adventurers_count) => Ok(quest.to_model(adventurers_count)),
            Err(error) => Err(QuestError::from_store_error(error)),
        }
    }

    /// The quest `quest_id` as the board shows it: `NotFound` where there is
    /// no such quest, `StorageUnavailable` only where a store fails on its
    /// own account.
    pub fn view_details(&self, quest_id: i32) -> (r: Result<QuestModel, QuestError>)
        requires
            self.wf(),
        ensures
            match r {
                Ok(model) => self.quests().contains_key(quest_id as int) && model@ == board_view(
                    self.quests(),
                    self.roster(),
                    quest_id as int,
                ),
                Err(QuestError::NotFound) => !self.quests().contains_key(quest_id as int),
                Err(QuestError::StorageUnavailable) => !self.reliable(),
                Err(_) => false,
            },
    {
        let quest = match self.quest_viewing_repository.get(quest_id) {
            Ok(quest) => quest,
            Err(error) => {
                return Err(QuestError::from_store_error(error));
            },
        };
        self.compose(&quest)
    }

    /// The board: one view for each quest that passes `filter`, and no
    /// other, each with the occupancy of its own quest.
    pub fn board_checking(&self, filter: &BoardCheckingFilter) -> (r: Result<Vec<QuestModel>, QuestError>)
        requires
            self.wf(),
        ensures
            match r {
                Ok(views) => self.is_board(filter@, views@),
                Err(error) => error == QuestError::StorageUnavailable && !self.reliable(),
            },
    {
        let found = match self.quest_viewing_repository.list(filter) {
            Ok(found) => found,
            Err(error) => {
                return Err(QuestError::from_store_error(error));
            },
        };
        let mut views: Vec<QuestModel> = Vec::new();
        let mut i: usize = 0;
        while i < found.len()
            invariant
                i <= found.len(),
                views.len() == i,
                self.wf(),
                forall|k: int|
                    0 <= k < i ==> (#[trigger] views[k]).id == found[k].id && views[k]@
                        == found[k]@.to_model(occupancy(self.roster(), found[k].id as int)),
            decreases found.len() - i,
        {
            match self.compose(&found[i]) {
                Ok(model) => {
                    views.push(model);
                },
                Err(error) => {
                    return Err(error);
                },
            }
            i += 1;
        }
        proof {
            self.lemma_views_of_listing(filter@, found@, views@);
        }
        Ok(views)
    }
}

} // verus!
