use vstd::prelude::*;
use crate::domain::entities::quests::QuestEntityView;
use crate::domain::errors::QuestError;
use crate::domain::repositories::quest_store::QuestStore;
use crate::domain::repositories::roster_store::{
    lemma_members_finite,
    lemma_occupancy_after_insert,
    lemma_occupancy_after_remove,
    members_of,
    occupancy,
    within_capacity,
    RosterStore,
};
use crate::domain::roster_rules::{
    capacity_gate,
    check_joinable,
    check_leavable,
    has_room,
    joining_outcome,
    leaving_outcome,
};
use crate::domain::value_objects::quest_adventurer_junction::{
    QuestAdventurerJunction,
    MAX_ADVENTURERS_PER_QUEST,
};
use crate::domain::value_objects::quest_statuses::QuestStatuses;

verus! {

/// What becomes of the request of `adventurer_id` to join `quest_id`, given
/// what the stores hold.
pub open spec fn join_outcome(
    quests: Map<int, QuestEntityView>,
    roster: Set<(int, int)>,
    max_adventurers: nat,
    quest_id: int,
    adventurer_id: int,
) -> Result<(), QuestError> {
    if !quests.contains_key(quest_id) {
        Err(QuestError::NotFound)
    } else {
        joining_outcome(
            quests[quest_id].status,
            occupancy(roster, quest_id),
            max_adventurers,
            roster.contains((quest_id, adventurer_id)),
        )
    }
}

/// What becomes of a request to leave `quest_id`, given what the quest store
/// holds.
pub open spec fn leave_outcome(quests: Map<int, QuestEntityView>, quest_id: int) -> Result<
    (),
    QuestError,
> {
    if !quests.contains_key(quest_id) {
        Err(QuestError::NotFound)
    } else {
        leaving_outcome(quests[quest_id].status)
    }
}

/// The roster once the request of `adventurer_id` to join `quest_id` has been
/// answered.
pub open spec fn roster_after_join(
    quests: Map<int, QuestEntityView>,
    roster: Set<(int, int)>,
    max_adventurers: nat,
    quest_id: int,
    adventurer_id: int,
) -> Set<(int, int)> {
    if join_outcome(quests, roster, max_adventurers, quest_id, adventurer_id) is Ok {
        roster.insert((quest_id, adventurer_id))
    } else {
        roster
    }
}

/// The answers to a run of requests to join `quest_id`, taken one after
/// another in the order of `adventurers`.
pub open spec fn join_outcomes(
    quests: Map<int, QuestEntityView>,
    roster: Set<(int, int)>,
    max_adventurers: nat,
    quest_id: int,
    adventurers: Seq<int>,
) -> Seq<Result<(), QuestError>>
    decreases adventurers.len(),
{
    if adventurers.len() == 0 {
        Seq::empty()
    } else {
        seq![join_outcome(quests, roster, max_adventurers, quest_id, adventurers[0])]
            + join_outcomes(
            quests,
            roster_after_join(quests, roster, max_adventurers, quest_id, adventurers[0]),
            max_adventurers,
            quest_id,
            adventurers.drop_first(),
        )
    }
}

/// The roster once a run of requests to join `quest_id` has been answered.
pub open spec fn roster_after_joins(
    quests: Map<int, QuestEntityView>,
    roster: Set<(int, int)>,
    max_adventurers: nat,
    quest_id: int,
    adventurers: Seq<int>,
) -> Set<(int, int)>
    decreases adventurers.len(),
{
    if adventurers.len() == 0 {
        roster
    } else {
        roster_after_joins(
            quests,
            roster_after_join(quests, roster, max_adventurers, quest_id, adventurers[0]),
            max_adventurers,
            quest_id,
            adventurers.drop_first(),
        )
    }
}

/// One request to join keeps a roster finite and within the bound.
pub proof fn lemma_join_keeps_capacity(
    quests: Map<int, QuestEntityView>,
    roster: Set<(int, int)>,
    max_adventurers: nat,
    quest_id: int,
    adventurer_id: int,
)
    requires
        roster.finite(),
        within_capacity(roster, max_adventurers),
    ensures
        roster_after_join(quests, roster, max_adventurers, quest_id, adventurer_id).finite(),
        within_capacity(
            roster_after_join(quests, roster, max_adventurers, quest_id, adventurer_id),
            max_adventurers,
        ),
{
    let after = roster_after_join(quests, roster, max_adventurers, quest_id, adventurer_id);
    if join_outcome(quests, roster, max_adventurers, quest_id, adventurer_id) is Ok {
        assert forall|other: int| #[trigger] occupancy(after, other) <= max_adventurers by {
            lemma_occupancy_after_insert(roster, (quest_id, adventurer_id), other);
            assert(occupancy(roster, other) <= max_adventurers);
        }
    }
}

/// Taking an adventurer off a roster keeps it finite and within the bound,
/// whether or not the adventurer was on it.
pub proof fn lemma_leave_keeps_capacity(
    roster: Set<(int, int)>,
    max_adventurers: nat,
    quest_id: int,
    adventurer_id: int,
)
    requires
        roster.finite(),
        within_capacity(roster, max_adventurers),
    ensures
        roster.remove((quest_id, adventurer_id)).finite(),
        within_capacity(roster.remove((quest_id, adventurer_id)), max_adventurers),
{
    let entry = (quest_id, adventurer_id);
    if roster.contains(entry) {
        assert forall|other: int| #[trigger]
            occupancy(roster.remove(entry), other) <= max_adventurers by {
            lemma_occupancy_after_remove(roster, entry, other);
            assert(occupancy(roster, other) <= max_adventurers);
        }
    } else {
        assert(roster.remove(entry) =~= roster);
    }
}

/// However many adventurers ask to join a quest, in whatever order and
/// whoever they are, its roster never grows beyond the bound: a roster that
/// is within the bound before a run of requests is within it after.
pub proof fn lemma_joins_never_exceed_capacity(
    quests: Map<int, QuestEntityView>,
    roster: Set<(int, int)>,
    max_adventurers: nat,
    quest_id: int,
    adventurers: Seq<int>,
)
    requires
        roster.finite(),
        within_capacity(roster, max_adventurers),
    ensures
        roster_after_joins(quests, roster, max_adventurers, quest_id, adventurers).finite(),
        within_capacity(
            roster_after_joins(quests, roster, max_adventurers, quest_id, adventurers),
            max_adventurers,
        ),
    decreases adventurers.len(),
{
    if adventurers.len() > 0 {
        lemma_join_keeps_capacity(quests, roster, max_adventurers, quest_id, adventurers[0]);
        lemma_joins_never_exceed_capacity(
            quests,
            roster_after_join(quests, roster, max_adventurers, quest_id, adventurers[0]),
            max_adventurers,
            quest_id,
            adventurers.drop_first(),
        );
    }
}

/// When distinct adventurers, none of them on the roster yet, ask to join a
/// recruiting quest one after another, those who find room are taken and all
/// who come after them are told that the quest is full: the request at
/// position `i` succeeds exactly if the quest held fewer than
/// `max_adventurers - i` adventurers to begin with. In the end the quest
/// holds what it held plus the newcomers, or `max_adventurers` if that is
/// less.
pub proof fn lemma_joins_fill_the_quest(
    quests: Map<int, QuestEntityView>,
    roster: Set<(int, int)>,
    max_adventurers: nat,
    quest_id: int,
    adventurers: Seq<int>,
)
    requires
        roster.finite(),
        quests.contains_key(quest_id),
        quests[quest_id].status.is_recruiting(),
        occupancy(roster, quest_id) <= max_adventurers,
        adventurers.no_duplicates(),
        forall|i: int|
            0 <= i < adventurers.len() ==> !roster.contains((quest_id, #[trigger] adventurers[i])),
    ensures
        join_outcomes(quests, roster, max_adventurers, quest_id, adventurers).len()
            == adventurers.len(),
        forall|i: int|
            0 <= i < adventurers.len() ==> #[trigger] join_outcomes(
                quests,
                roster,
                max_adventurers,
                quest_id,
                adventurers,
            )[i] == if occupancy(roster, quest_id) + i < max_adventurers {
                Ok::<(), QuestError>(())
            } else {
                Err::<(), QuestError>(QuestError::QuestFull)
            },
        occupancy(
            roster_after_joins(quests, roster, max_adventurers, quest_id, adventurers),
            quest_id,
        ) == if occupancy(roster, quest_id) + adventurers.len() <= max_adventurers {
            occupancy(roster, quest_id) + adventurers.len()
        } else {
            max_adventurers
        },
    decreases adventurers.len(),
{
    if adventurers.len() > 0 {
        let first = adventurers[0];
        let rest = adventurers.drop_first();
        let after = roster_after_join(quests, roster, max_adventurers, quest_id, first);
        assert(!roster.contains((quest_id, first)));
        lemma_occupancy_after_insert(roster, (quest_id, first), quest_id);
        assert forall|i: int| 0 <= i < rest.len() implies !after.contains(
            (quest_id, #[trigger] rest[i]),
        ) by {
            assert(rest[i] == adventurers[i + 1]);
            assert(!roster.contains((quest_id, adventurers[i + 1])));
            assert(adventurers[i + 1] != adventurers[0]);
        }
        assert(rest.no_duplicates()) by {
            assert forall|i: int, j: int| 0 <= i < rest.len() && 0 <= j < rest.len() && i != j implies rest[i]
                != rest[j] by {
                assert(rest[i] == adventurers[i + 1]);
                assert(rest[j] == adventurers[j + 1]);
            }
        }
        lemma_joins_fill_the_quest(quests, after, max_adventurers, quest_id, rest);
        let all = join_outcomes(quests, roster, max_adventurers, quest_id, adventurers);
        let tail = join_outcomes(quests, after, max_adventurers, quest_id, rest);
        assert forall|i: int| 0 <= i < adventurers.len() implies #[trigger] all[i] == if occupancy(
            roster,
            quest_id,
        ) + i < max_adventurers {
            Ok::<(), QuestError>(())
        } else {
            Err::<(), QuestError>(QuestError::QuestFull)
        } by {
            if i > 0 {
                assert(all[i] == tail[i - 1]);
            }
        }
    }
}

/// Of twice as many distinct adventurers as a quest has places, asking to
/// join an empty recruiting quest in any order, exactly the first half is
/// taken and exactly the second half is told that the quest is full; the
/// quest is then full to the bound.
pub proof fn lemma_twice_the_capacity_fills_exactly(
    quests: Map<int, QuestEntityView>,
    roster: Set<(int, int)>,
    max_adventurers: nat,
    quest_id: int,
    adventurers: Seq<int>,
)
    requires
        roster.finite(),
        quests.contains_key(quest_id),
        quests[quest_id].status.is_recruiting(),
        occupancy(roster, quest_id) == 0,
        adventurers.no_duplicates(),
        adventurers.len() == 2 * max_adventurers,
    ensures
        join_outcomes(quests, roster, max_adventurers, quest_id, adventurers).len() == 2
            * max_adventurers,
        forall|i: int|
            0 <= i < max_adventurers ==> #[trigger] join_outcomes(
                quests,
                roster,
                max_adventurers,
                quest_id,
                adventurers,
            )[i] is Ok,
        forall|i: int|
            max_adventurers <= i < 2 * max_adventurers ==> #[trigger] join_outcomes(
                quests,
                roster,
                max_adventurers,
                quest_id,
                adventurers,
            )[i] == Err::<(), QuestError>(QuestError::QuestFull),
        occupancy(
            roster_after_joins(quests, roster, max_adventurers, quest_id, adventurers),
            quest_id,
        ) == max_adventurers,
{
    lemma_members_finite(roster, quest_id);
    assert forall|i: int| 0 <= i < adventurers.len() implies !roster.contains(
        (quest_id, #[trigger] adventurers[i]),
    ) by {
        if roster.contains((quest_id, adventurers[i])) {
            assert(members_of(roster, quest_id).contains(adventurers[i]));
        }
    }
    lemma_joins_fill_the_quest(quests, roster, max_adventurers, quest_id, adventurers);
}

/// An adventurer whose request to join was granted and who asks again, while
/// the quest still has room, is told that they have joined already; the
/// roster stays as it is.
pub proof fn lemma_joining_twice(
    quests: Map<int, QuestEntityView>,
    roster: Set<(int, int)>,
    max_adventurers: nat,
    quest_id: int,
    adventurer_id: int,
)
    requires
        roster.finite(),
        join_outcome(quests, roster, max_adventurers, quest_id, adventurer_id) is Ok,
        occupancy(roster, quest_id) + 1 < max_adventurers,
    ensures
        join_outcome(
            quests,
            roster_after_join(quests, roster, max_adventurers, quest_id, adventurer_id),
            max_adventurers,
            quest_id,
            adventurer_id,
        ) == Err::<(), QuestError>(QuestError::AlreadyJoined),
        roster_after_join(
            quests,
            roster_after_join(quests, roster, max_adventurers, quest_id, adventurer_id),
            max_adventurers,
            quest_id,
            adventurer_id,
        ) == roster_after_join(quests, roster, max_adventurers, quest_id, adventurer_id),
{
    lemma_occupancy_after_insert(roster, (quest_id, adventurer_id), quest_id);
}

/// An adventurer whose own entry took the last place and who asks again finds
/// the quest full, as anybody does: room is looked at before the roster. The
/// roster stays as it is.
pub proof fn lemma_joining_twice_a_full_quest(
    quests: Map<int, QuestEntityView>,
    roster: Set<(int, int)>,
    max_adventurers: nat,
    quest_id: int,
    adventurer_id: int,
)
    requires
        roster.finite(),
        join_outcome(quests, roster, max_adventurers, quest_id, adventurer_id) is Ok,
        occupancy(roster, quest_id) + 1 >= max_adventurers,
    ensures
        join_outcome(
            quests,
            roster_after_join(quests, roster, max_adventurers, quest_id, adventurer_id),
            max_adventurers,
            quest_id,
            adventurer_id,
        ) == Err::<(), QuestError>(QuestError::QuestFull),
        roster_after_join(
            quests,
            roster_after_join(quests, roster, max_adventurers, quest_id, adventurer_id),
            max_adventurers,
            quest_id,
            adventurer_id,
        ) == roster_after_join(quests, roster, max_adventurers, quest_id, adventurer_id),
{
    lemma_occupancy_after_insert(roster, (quest_id, adventurer_id), quest_id);
}

/// A place that an adventurer leaves is free for the next: once a member has
/// left a recruiting quest whose roster was within the bound, whoever is not
/// on the roster is taken.
pub proof fn lemma_leaving_frees_a_place(
    quests: Map<int, QuestEntityView>,
    roster: Set<(int, int)>,
    max_adventurers: nat,
    quest_id: int,
    leaver: int,
    newcomer: int,
)
    requires
        roster.finite(),
        quests.contains_key(quest_id),
        quests[quest_id].status.is_recruiting(),
        occupancy(roster, quest_id) <= max_adventurers,
        roster.contains((quest_id, leaver)),
        !roster.contains((quest_id, newcomer)),
    ensures
        leave_outcome(quests, quest_id) is Ok,
        occupancy(roster.remove((quest_id, leaver)), quest_id) == occupancy(roster, quest_id) - 1,
        join_outcome(
            quests,
            roster.remove((quest_id, leaver)),
            max_adventurers,
            quest_id,
            newcomer,
        ) is Ok,
{
    lemma_occupancy_after_remove(roster, (quest_id, leaver), quest_id);
}

/// A failed quest recruits as an open one does: whoever asks to join or to
/// leave it gets the answer that an open quest with the same roster gives.
pub proof fn lemma_failed_quests_recruit_again(
    occupancy: nat,
    max_adventurers: nat,
    already_joined: bool,
)
    ensures
        joining_outcome(QuestStatuses::Failed, occupancy, max_adventurers, already_joined)
            == joining_outcome(QuestStatuses::Open, occupancy, max_adventurers, already_joined),
        leaving_outcome(QuestStatuses::Failed) == leaving_outcome(QuestStatuses::Open),
{
}

/// While a quest is on its journey or completed its roster is closed:
/// whoever asks to join is told that the quest is not joinable, whoever asks
/// to leave that it is not leavable, and the roster stays as it is.
pub proof fn lemma_roster_closed_unless_recruiting(
    quests: Map<int, QuestEntityView>,
    roster: Set<(int, int)>,
    max_adventurers: nat,
    quest_id: int,
    adventurer_id: int,
)
    requires
        quests.contains_key(quest_id),
        quests[quest_id].status is InJourney || quests[quest_id].status is Completed,
    ensures
        join_outcome(quests, roster, max_adventurers, quest_id, adventurer_id) == Err::<
            (),
            QuestError,
        >(QuestError::QuestNotJoinable),
        roster_after_join(quests, roster, max_adventurers, quest_id, adventurer_id) == roster,
        leave_outcome(quests, quest_id) == Err::<(), QuestError>(QuestError::QuestNotLeavable),
{
}

/// The roster engine: adventurers join and leave quests through it.
///
/// It owns the two stores it works against, so each operation runs from its
/// first read to its last write with nothing in between: a caller who shares
/// an engine between workers puts it behind a lock, and every order in which
/// the workers get the lock is a sequence of whole operations.
pub struct CrewSwitchboardUseCase<T1, T2> where T1: RosterStore, T2: QuestStore {
    crew_switchboard_repository: T1,
    quest_viewing_repository: T2,
    max_adventurers: u64,
}

impl<T1, T2> CrewSwitchboardUseCase<T1, T2> where T1: RosterStore, T2: QuestStore {
    /// Both stores keep their invariants.
    pub closed spec fn wf(&self) -> bool {
        self.crew_switchboard_repository.wf() && self.quest_viewing_repository.wf()
    }

    /// The roster that the engine works on.
    pub closed spec fn roster(&self) -> Set<(int, int)> {
        self.crew_switchboard_repository.roster()
    }

    /// The quests that the engine reads.
    pub closed spec fn quests(&self) -> Map<int, QuestEntityView> {
        self.quest_viewing_repository.quests()
    }

    /// The bound on the adventurers of one quest.
    pub closed spec fn max_adventurers(&self) -> nat {
        self.max_adventurers as nat
    }

    /// Neither store fails on its own account.
    pub closed spec fn reliable(&self) -> bool {
        self.crew_switchboard_repository.reliable() && self.quest_viewing_repository.reliable()
    }

    /// An engine over the two stores with the usual bound on a roster.
    pub fn new(crew_switchboard_repository: T1, quest_viewing_repository: T2) -> (engine: Self)
        ensures
            engine.wf() == (crew_switchboard_repository.wf() && quest_viewing_repository.wf()),
            engine.reliable() == (crew_switchboard_repository.reliable()
                && quest_viewing_repository.reliable()),
            engine.roster() == crew_switchboard_repository.roster(),
            engine.quests() == quest_viewing_repository.quests(),
            engine.max_adventurers() == MAX_ADVENTURERS_PER_QUEST,
    {
        CrewSwitchboardUseCase {
            crew_switchboard_repository,
            quest_viewing_repository,
            max_adventurers: MAX_ADVENTURERS_PER_QUEST,
        }
    }

    /// An engine over the two stores that lets `max_adventurers` adventurers
    /// on each quest.
    pub fn with_max_adventurers(
        crew_switchboard_repository: T1,
        quest_viewing_repository: T2,
        max_adventurers: u64,
    ) -> (engine: Self)
        ensures
            engine.wf() == (crew_switchboard_repository.wf() && quest_viewing_repository.wf()),
            engine.reliable() == (crew_switchboard_repository.reliable()
                && quest_viewing_repository.reliable()),
            engine.roster() == crew_switchboard_repository.roster(),
            engine.quests() == quest_viewing_repository.quests(),
            engine.max_adventurers() == max_adventurers,
    {
        CrewSwitchboardUseCase {
            crew_switchboard_repository,
            quest_viewing_repository,
            max_adventurers,
        }
    }

    /// Gives the two stores back.
    pub fn into_repositories(self) -> (stores: (T1, T2))
        ensures
            self.wf() == (stores.0.wf() && stores.1.wf()),
            self.reliable() == (stores.0.reliable() && stores.1.reliable()),
            stores.0.roster() == self.roster(),
            stores.1.quests() == self.quests(),
    {
        (self.crew_switchboard_repository, self.quest_viewing_repository)
    }

    /// The capacity gate: whether the roster of `quest_id` has room for one
    /// more adventurer right now. Nothing is reserved by asking: `join`
    /// decides for itself.
    pub fn capacity_gate(&self, quest_id: i32) -> (r: Result<bool, QuestError>)
        requires
            self.wf(),
        ensures
            match r {
                Ok(open) => open == has_room(
                    occupancy(self.roster(), quest_id as int),
                    self.max_adventurers(),
                ),
                Err(error) => error == QuestError::StorageUnavailable && !self.reliable(),
            },
    {
        match self.crew_switchboard_repository.count(quest_id) {
            Ok(count) => Ok(capacity_gate(count, self.max_adventurers)),
            Err(error) => Err(QuestError::from_store_error(error)),
        }
    }

    /// Puts the adventurer on the quest's roster.
    ///
    /// The quest must exist (`NotFound`), recruit (`QuestNotJoinable`) and
    /// have room (`QuestFull`), and the adventurer must not be on it yet
    /// (`AlreadyJoined`); the first of these that fails is the answer. Only a
    /// store that fails on its own account makes the answer
    /// `StorageUnavailable` instead. The roster gains the one entry when the
    /// answer is `Ok`, and is untouched otherwise; the quests are never
    /// touched.
    pub fn join(&mut self, quest_id: i32, adventurer_id: i32) -> (r: Result<(), QuestError>)
        requires
            old(self).wf(),
        ensures
            final(self).wf(),
            final(self).reliable() == old(self).reliable(),
            final(self).max_adventurers() == old(self).max_adventurers(),
            final(self).quests() == old(self).quests(),
            r is Ok ==> final(self).roster().finite(),
            final(self).roster() == if r is Ok {
                old(self).roster().insert((quest_id as int, adventurer_id as int))
            } else {
                old(self).roster()
            },
            r == join_outcome(
                old(self).quests(),
                old(self).roster(),
                old(self).max_adventurers(),
                quest_id as int,
                adventurer_id as int,
            ) || r == Err::<(), QuestError>(QuestError::StorageUnavailable),
            r == Err::<(), QuestError>(QuestError::StorageUnavailable) ==> !old(self).reliable(),
            within_capacity(old(self).roster(), old(self).max_adventurers()) ==> within_capacity(
                final(self).roster(),
                final(self).max_adventurers(),
            ),
    {
        let status = match self.quest_viewing_repository.get_status(quest_id) {
            Ok(status) => status,
            Err(error) => {
                return Err(QuestError::from_store_error(error));
            },
        };
        if !status.allows_roster_changes() {
            return Err(QuestError::QuestNotJoinable);
        }
        let count = match self.crew_switchboard_repository.count(quest_id) {
            Ok(count) => count,
            Err(error) => {
                return Err(QuestError::from_store_error(error));
            },
        };
        match check_joinable(status, count, self.max_adventurers) {
            Ok(()) => {},
            Err(refusal) => {
                return Err(refusal);
            },
        }
        let junction = QuestAdventurerJunction { adventurer_id, quest_id };
        match self.crew_switchboard_repository.insert(junction) {
            Ok(()) => {
                proof {
                    if within_capacity(old(self).roster(), old(self).max_adventurers()) {
                        lemma_join_keeps_capacity(
                            old(self).quests(),
                            old(self).roster(),
                            old(self).max_adventurers(),
                            quest_id as int,
                            adventurer_id as int,
                        );
                    }
                }
                Ok(())
            },
            Err(error) => Err(QuestError::from_store_error(error)),
        }
    }

    /// Takes the adventurer off the quest's roster.
    ///
    /// The quest must exist (`NotFound`) and recruit (`QuestNotLeavable`).
    /// Whoever leaves a quest that they are not on has left it: the answer is
    /// `Ok` and nothing changes. Only a store that fails on its own account
    /// makes the answer `StorageUnavailable` instead. The quests are never
    /// touched.
    pub fn leave(&mut self, quest_id: i32, adventurer_id: i32) -> (r: Result<(), QuestError>)
        requires
            old(self).wf(),
        ensures
            final(self).wf(),
            final(self).reliable() == old(self).reliable(),
            final(self).max_adventurers() == old(self).max_adventurers(),
            final(self).quests() == old(self).quests(),
            r is Ok ==> final(self).roster().finite(),
            final(self).roster() == if r is Ok {
                old(self).roster().remove((quest_id as int, adventurer_id as int))
            } else {
                old(self).roster()
            },
            r == leave_outcome(old(self).quests(), quest_id as int) || r == Err::<(), QuestError>(
                QuestError::StorageUnavailable,
            ),
            r == Err::<(), QuestError>(QuestError::StorageUnavailable) ==> !old(self).reliable(),
            within_capacity(old(self).roster(), old(self).max_adventurers()) ==> within_capacity(
                final(self).roster(),
                final(self).max_adventurers(),
            ),
    {
        let status = match self.quest_viewing_repository.get_status(quest_id) {
            Ok(status) => status,
            Err(error) => {
                return Err(QuestError::from_store_error(error));
            },
        };
        match check_leavable(status) {
            Ok(()) => {},
            Err(refusal) => {
                return Err(refusal);
            },
        }
        let junction = QuestAdventurerJunction { adventurer_id, quest_id };
        match self.crew_switchboard_repository.delete(junction) {
            Ok(()) => {
                proof {
                    if within_capacity(old(self).roster(), old(self).max_adventurers()) {
                        lemma_leave_keeps_capacity(
                            old(self).roster(),
                            old(self).max_adventurers(),
                            quest_id as int,
                            adventurer_id as int,
                        );
                    }
                }
                Ok(())
            },
            Err(error) => Err(QuestError::from_store_error(error)),
        }
    }
}

} // verus!
