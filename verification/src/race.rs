//! Attempts that race for one link. Each attempt goes through its storage
//! calls one at a time, and between any two calls of one attempt any number
//! of calls of the others may come. Whatever the order, one attempt
//! consumes the link and the others learn that it is gone.

use crate::models::{
    ErrorKind, ErrorView, FileView, LinkView, OnetimeLink, OnetimeStorage, StoreView,
};
use crate::redemption::{
    decide_on_file, decide_on_link, decide_on_mark, file_answer, link_answer, mark_answer,
    AfterLink, AfterMark, Fetching, Marking, Outcome, OutcomeView, Phase, Redemption,
};
use crate::storage::memory::Storage;
use vstd::prelude::*;

verus! {

impl StoreView {
    /// What a backend that does not fail answers when asked for a link.
    pub open spec fn answer_get_link(self, token: Seq<char>) -> Result<LinkView, ErrorView> {
        if self.links.contains_key(token) {
            Ok(self.links[token])
        } else {
            Err(ErrorView { kind: ErrorKind::NotFound, message: "Link not found"@ })
        }
    }

    /// What it answers when asked for a file.
    pub open spec fn answer_get_file(self, filename: Seq<char>) -> Result<FileView, ErrorView> {
        if self.files.contains_key(filename) {
            Ok(self.files[filename])
        } else {
            Err(ErrorView { kind: ErrorKind::NotFound, message: "File not found"@ })
        }
    }

    /// What it answers to the write that consumes a link: whether the
    /// caller lost.
    pub open spec fn answer_mark(self, token: Seq<char>) -> Result<bool, ErrorView> {
        Ok(!self.redeemable(token))
    }

    /// What it holds after that write.
    pub open spec fn after_mark(self, token: Seq<char>, ip_address: Seq<char>, downloaded_at: i64) -> StoreView {
        if self.redeemable(token) {
            self.redeemed(token, ip_address, downloaded_at)
        } else {
            self
        }
    }
}

/// One attempt: whose it is, what its clock read, and where it stands.
pub struct AttemptView {
    pub token: Seq<char>,
    pub ip_address: Seq<char>,
    pub now: i64,
    pub phase: Phase,
}

/// The store and the attempts that share it.
pub struct World {
    pub store: StoreView,
    pub attempts: Seq<AttemptView>,
}

/// An attempt makes its next storage call, and decides on the answer.
pub open spec fn step_attempt(store: StoreView, a: AttemptView) -> (StoreView, AttemptView) {
    match a.phase {
        Phase::AwaitingLink => (
            store,
            AttemptView { phase: decide_on_link(a.token, store.answer_get_link(a.token)), ..a },
        ),
        Phase::AwaitingMark { link } => (
            store.after_mark(link.token, a.ip_address, a.now),
            AttemptView {
                phase: decide_on_mark(link.filename, store.answer_mark(link.token)),
                ..a
            },
        ),
        Phase::AwaitingFile { filename } => (
            store,
            AttemptView {
                phase: Phase::Done {
                    outcome: decide_on_file(filename, store.answer_get_file(filename)),
                },
                ..a
            },
        ),
        Phase::Done { .. } => (store, a),
    }
}

/// Attempt `i` makes its next storage call; the others stand still.
pub open spec fn step(w: World, i: int) -> World {
    if 0 <= i < w.attempts.len() {
        let (store, attempt) = step_attempt(w.store, w.attempts[i]);
        World { store, attempts: w.attempts.update(i, attempt) }
    } else {
        w
    }
}

/// The attempts make their calls in the order that `schedule` names them.
pub open spec fn run(w: World, schedule: Seq<int>) -> World
    decreases schedule.len(),
{
    if schedule.len() == 0 {
        w
    } else {
        step(run(w, schedule.drop_last()), schedule.last())
    }
}

/// Every attempt is for the unconsumed link under `token` and has just
/// asked for it.
pub open spec fn starting(w: World, token: Seq<char>) -> bool {
    &&& w.store.redeemable(token)
    &&& w.store.links[token].token == token
    &&& forall|i: int|
        0 <= i < w.attempts.len() ==> (#[trigger] w.attempts[i]).token == token
            && w.attempts[i].phase is AwaitingLink
}

pub open spec fn finished(w: World) -> bool {
    forall|i: int| 0 <= i < w.attempts.len() ==> (#[trigger] w.attempts[i]).phase is Done
}

pub open spec fn got_content(a: AttemptView) -> bool {
    a.phase matches Phase::Done { outcome } && outcome is Content
}

pub open spec fn was_refused(a: AttemptView) -> bool {
    a.phase matches Phase::Done { outcome } && outcome is AlreadyRedeemed
}

/// The attempt has not tried its write: it waits for the link, or holds
/// the link as it was at the start.
pub open spec fn undecided(a: AttemptView, link: LinkView) -> bool {
    a.phase is AwaitingLink || a.phase == (Phase::AwaitingMark { link })
}

/// How the winner ends: with the bytes of the file that the link names, as
/// they were at the start, or with the news that the file is not there.
pub open spec fn prize(start: World, token: Seq<char>) -> OutcomeView {
    let filename = start.store.links[token].filename;
    decide_on_file(filename, start.store.answer_get_file(filename))
}

/// `winner` consumed the link, and nothing else was changed.
pub open spec fn consumed_by(start: World, w: World, token: Seq<char>, winner: int) -> bool {
    &&& 0 <= winner < start.attempts.len()
    &&& w.store == start.store.redeemed(
        token,
        start.attempts[winner].ip_address,
        start.attempts[winner].now,
    )
}

spec fn same_job(a: AttemptView, b: AttemptView) -> bool {
    a.token == b.token && a.ip_address == b.ip_address && a.now == b.now
}

spec fn open_race(start: World, w: World, token: Seq<char>) -> bool {
    &&& w.store == start.store
    &&& forall|i: int|
        0 <= i < w.attempts.len() ==> undecided(#[trigger] w.attempts[i], start.store.links[token])
}

spec fn settled_race(start: World, w: World, token: Seq<char>, winner: int) -> bool {
    &&& consumed_by(start, w, token, winner)
    &&& (w.attempts[winner].phase == (Phase::AwaitingFile {
        filename: start.store.links[token].filename,
    }) || w.attempts[winner].phase == (Phase::Done { outcome: prize(start, token) }))
    &&& forall|i: int|
        0 <= i < w.attempts.len() && i != winner ==> undecided(
            #[trigger] w.attempts[i],
            start.store.links[token],
        ) || was_refused(w.attempts[i])
}

spec fn race_inv(start: World, w: World, token: Seq<char>) -> bool {
    &&& w.attempts.len() == start.attempts.len()
    &&& forall|i: int|
        0 <= i < w.attempts.len() ==> same_job(#[trigger] w.attempts[i], start.attempts[i])
    &&& (open_race(start, w, token) || exists|winner: int| settled_race(start, w, token, winner))
}

proof fn lemma_step_keeps_race_inv(start: World, w: World, token: Seq<char>, i: int)
    requires
        starting(start, token),
        race_inv(start, w, token),
    ensures
        race_inv(start, step(w, i), token),
{
    let after = step(w, i);
    if 0 <= i < w.attempts.len() {
        let link = start.store.links[token];
        let a = w.attempts[i];
        assert(same_job(a, start.attempts[i]));
        assert(start.attempts[i].token == token);
        assert forall|j: int| 0 <= j < after.attempts.len() implies same_job(
            #[trigger] after.attempts[j],
            start.attempts[j],
        ) by {
            assert(same_job(w.attempts[j], start.attempts[j]));
        }
        if open_race(start, w, token) {
            assert(undecided(a, link));
            if a.phase is AwaitingLink {
                assert forall|j: int| 0 <= j < after.attempts.len() implies undecided(
                    #[trigger] after.attempts[j],
                    link,
                ) by {
                    if j != i {
                        assert(undecided(w.attempts[j], link));
                    }
                }
                assert(open_race(start, after, token));
            } else {
                assert forall|j: int| 0 <= j < after.attempts.len() && j != i implies undecided(
                    #[trigger] after.attempts[j],
                    link,
                ) || was_refused(after.attempts[j]) by {
                    assert(undecided(w.attempts[j], link));
                }
                assert(settled_race(start, after, token, i));
            }
        } else {
            let winner = choose|winner: int| settled_race(start, w, token, winner);
            assert(w.store.links.contains_key(token));
            assert(w.store.links[token].redeemed());
            assert(w.store.files == start.store.files);
            if i == winner {
                assert forall|j: int| 0 <= j < after.attempts.len() && j != winner implies undecided(
                    #[trigger] after.attempts[j],
                    link,
                ) || was_refused(after.attempts[j]) by {
                    assert(undecided(w.attempts[j], link) || was_refused(w.attempts[j]));
                }
                assert(settled_race(start, after, token, winner));
            } else {
                assert(undecided(a, link) || was_refused(a));
                assert(after.store == w.store);
                assert forall|j: int| 0 <= j < after.attempts.len() && j != winner implies undecided(
                    #[trigger] after.attempts[j],
                    link,
                ) || was_refused(after.attempts[j]) by {
                    if j != i {
                        assert(undecided(w.attempts[j], link) || was_refused(w.attempts[j]));
                    }
                }
                assert(settled_race(start, after, token, winner));
            }
        }
    }
}

proof fn lemma_run_keeps_race_inv(start: World, token: Seq<char>, schedule: Seq<int>)
    requires
        starting(start, token),
    ensures
        race_inv(start, run(start, schedule), token),
    decreases schedule.len(),
{
    if schedule.len() == 0 {
        assert(open_race(start, start, token));
    } else {
        lemma_run_keeps_race_inv(start, token, schedule.drop_last());
        lemma_step_keeps_race_inv(
            start,
            run(start, schedule.drop_last()),
            token,
            schedule.last(),
        );
    }
}

/// At most once: however the calls of the attempts on one unconsumed link
/// fall in time, no two attempts get the content. Once all have ended,
/// one of them has consumed the link and ended with the file (or with the
/// news that the file is missing), every other has been refused, and the
/// link records the winner's address and clock reading; nothing else in
/// the store has changed.
pub proof fn lemma_at_most_once(start: World, token: Seq<char>, schedule: Seq<int>)
    requires
        starting(start, token),
    ensures
        ({
            let end = run(start, schedule);
            &&& end.attempts.len() == start.attempts.len()
            &&& forall|i: int, j: int|
                0 <= i < end.attempts.len() && 0 <= j < end.attempts.len() && got_content(
                    #[trigger] end.attempts[i],
                ) && got_content(#[trigger] end.attempts[j]) ==> i == j
            &&& finished(end) && end.attempts.len() > 0 ==> exists|winner: int|
                {
                    &&& #[trigger] consumed_by(start, end, token, winner)
                    &&& end.attempts[winner].phase == (Phase::Done { outcome: prize(start, token) })
                    &&& forall|i: int|
                        0 <= i < end.attempts.len() && i != winner ==> was_refused(
                            #[trigger] end.attempts[i],
                        )
                }
        }),
{
    let end = run(start, schedule);
    lemma_run_keeps_race_inv(start, token, schedule);
    if open_race(start, end, token) {
        assert forall|i: int| 0 <= i < end.attempts.len() implies !got_content(
            #[trigger] end.attempts[i],
        ) by {
            assert(undecided(end.attempts[i], start.store.links[token]));
        }
        if end.attempts.len() > 0 {
            assert(undecided(end.attempts[0], start.store.links[token]));
            assert(!finished(end));
        }
    } else {
        let winner = choose|winner: int| settled_race(start, end, token, winner);
        assert forall|i: int| 0 <= i < end.attempts.len() && i != winner implies !got_content(
            #[trigger] end.attempts[i],
        ) by {
            assert(undecided(end.attempts[i], start.store.links[token]) || was_refused(
                end.attempts[i],
            ));
        }
        if finished(end) {
            assert(end.attempts[winner].phase is Done);
            assert forall|i: int| 0 <= i < end.attempts.len() && i != winner implies was_refused(
                #[trigger] end.attempts[i],
            ) by {
                assert(end.attempts[i].phase is Done);
                assert(undecided(end.attempts[i], start.store.links[token]) || was_refused(
                    end.attempts[i],
                ));
            }
            assert(consumed_by(start, end, token, winner));
        }
    }
}

/// Where the file that the link names is there, the winner of
/// `lemma_at_most_once` ends with its bytes.
pub proof fn lemma_prize_is_the_file(start: World, token: Seq<char>)
    requires
        start.store.links.contains_key(token),
        start.store.files.contains_key(start.store.links[token].filename),
    ensures
        prize(start, token) == (OutcomeView::Content {
            filename: start.store.links[token].filename,
            contents: start.store.files[start.store.links[token].filename].contents,
        }),
{
}

/// A consumed link stays as it is: whatever attempts are made on whatever
/// links, in whatever order, the link under `token` keeps the instant and
/// the address of the one that consumed it, and asking for it gives the
/// same answer every time.
pub proof fn lemma_redeemed_link_stays(w: World, token: Seq<char>, schedule: Seq<int>)
    requires
        w.store.links.contains_key(token),
        w.store.links[token].redeemed(),
    ensures
        run(w, schedule).store.links.contains_key(token),
        run(w, schedule).store.links[token] == w.store.links[token],
        run(w, schedule).store.answer_get_link(token) == w.store.answer_get_link(token),
    decreases schedule.len(),
{
    if schedule.len() > 0 {
        lemma_redeemed_link_stays(w, token, schedule.drop_last());
    }
}

/// A token that was never issued is not found, by however many attempts,
/// and none of them changes the store.
pub proof fn lemma_unissued_is_not_found(store: StoreView, a: AttemptView)
    requires
        !store.links.contains_key(a.token),
        a.phase is AwaitingLink,
    ensures
        step_attempt(store, a).0 == store,
        step_attempt(store, a).1.phase matches Phase::Done { outcome } && outcome is NotFound,
{
}

/// Where a running attempt stands.
pub enum Stage {
    AwaitingLink,
    AwaitingMark { link: OnetimeLink },
    AwaitingFile { filename: String },
    Done(Outcome),
}

/// A running attempt, to be advanced one storage call at a time.
pub struct Attempt {
    pub token: String,
    pub ip_address: String,
    pub now: i64,
    pub stage: Stage,
}

impl Stage {
    pub open spec fn phase(self) -> Phase {
        match self {
            Stage::AwaitingLink => Phase::AwaitingLink,
            Stage::AwaitingMark { link } => Phase::AwaitingMark { link: link@ },
            Stage::AwaitingFile { filename } => Phase::AwaitingFile { filename: filename@ },
            Stage::Done(outcome) => Phase::Done { outcome: outcome@ },
        }
    }
}

impl View for Attempt {
    type V = AttemptView;

    open spec fn view(&self) -> AttemptView {
        AttemptView {
            token: self.token@,
            ip_address: self.ip_address@,
            now: self.now,
            phase: self.stage.phase(),
        }
    }
}

impl Attempt {
    /// An attempt on the link under `token`, made from `ip_address` when the
    /// clock read `now`, that is about to ask for the link.
    pub fn new(token: String, ip_address: String, now: i64) -> (a: Attempt)
        ensures
            a@ == (AttemptView { token: token@, ip_address: ip_address@, now, phase: Phase::AwaitingLink }),
    {
        Attempt { token, ip_address, now, stage: Stage::AwaitingLink }
    }

    /// How the attempt ended, once it has.
    pub fn outcome(&self) -> (r: Option<&Outcome>)
        ensures
            match r {
                Some(outcome) => self@.phase == (Phase::Done { outcome: outcome@ }),
                None => !(self@.phase is Done),
            },
    {
        match &self.stage {
            Stage::Done(outcome) => Some(outcome),
            _ => None,
        }
    }

    /// Makes the attempt's next storage call on `storage` and decides on
    /// the answer. An attempt that has ended stays as it is.
    pub fn advance(self, storage: &mut Storage) -> (r: Attempt)
        ensures
            (final(storage).store(), r@) == step_attempt(old(storage).store(), self@),
    {
        let Attempt { token, ip_address, now, stage } = self;
        match stage {
            Stage::AwaitingLink => {
                let fetched = storage.get_link(token.clone());
                let attempt = Redemption::begin(token.clone(), ip_address.clone());
                let stage = match attempt.link_fetched(fetched, now) {
                    AfterLink::Done(outcome) => Stage::Done(outcome),
                    AfterLink::Mark { link, .. } => Stage::AwaitingMark { link },
                };
                Attempt { token, ip_address, now, stage }
            },
            Stage::AwaitingMark { link } => {
                let next = Marking { filename: link.filename.clone() };
                let marked = storage.mark_downloaded(link, ip_address.clone(), now);
                let stage = match next.marked(marked) {
                    AfterMark::Done(outcome) => Stage::Done(outcome),
                    AfterMark::Fetch { next } => Stage::AwaitingFile { filename: next.filename },
                };
                Attempt { token, ip_address, now, stage }
            },
            Stage::AwaitingFile { filename } => {
                let fetched = storage.get_file(filename.clone());
                let outcome = Fetching { filename }.file_fetched(fetched);
                Attempt { token, ip_address, now, stage: Stage::Done(outcome) }
            },
            Stage::Done(outcome) => Attempt { token, ip_address, now, stage: Stage::Done(outcome) },
        }
    }
}

} // verus!
