//! Redeeming a link: the decisions between the storage calls, the whole
//! exchange against a backend, and what holds of any number of exchanges
//! that race for one link.

use crate::contents::bytes_contents;
use crate::models::{
    ErrorKind, ErrorView, FileView, LinkView, MyError, OnetimeFile, OnetimeLink, OnetimeStorage,
    StoreView,
};
use bytes::Bytes;
use vstd::prelude::*;

verus! {

/// How an attempt to redeem a link ended.
#[derive(Debug)]
pub enum Outcome {
    /// The caller consumed the link: the file's bytes, and its name.
    Content { filename: String, contents: Bytes },
    /// There is no such link.
    NotFound { message: String },
    /// The link had been consumed: seen when the link was read, or, with
    /// `raced`, when this caller's own write came too late.
    AlreadyRedeemed { raced: bool },
    /// Storage failed while the link was being consumed.
    Internal { message: String },
    /// The caller consumed the link, but the file it names is not there.
    ContentMissing { message: String },
}

pub enum OutcomeView {
    Content { filename: Seq<char>, contents: Seq<u8> },
    NotFound { message: Seq<char> },
    AlreadyRedeemed { raced: bool },
    Internal { message: Seq<char> },
    ContentMissing { message: Seq<char> },
}

impl View for Outcome {
    type V = OutcomeView;

    open spec fn view(&self) -> OutcomeView {
        match *self {
            Outcome::Content { filename, contents } => OutcomeView::Content {
                filename: filename@,
                contents: bytes_contents(contents),
            },
            Outcome::NotFound { message } => OutcomeView::NotFound { message: message@ },
            Outcome::AlreadyRedeemed { raced } => OutcomeView::AlreadyRedeemed { raced },
            Outcome::Internal { message } => OutcomeView::Internal { message: message@ },
            Outcome::ContentMissing { message } => OutcomeView::ContentMissing {
                message: message@,
            },
        }
    }
}

impl OutcomeView {
    /// The kind of error that the outcome amounts to; none for the caller
    /// that got the file.
    pub open spec fn error(self) -> Option<ErrorKind> {
        match self {
            OutcomeView::Content { .. } => None,
            OutcomeView::NotFound { .. } => Some(ErrorKind::NotFound),
            OutcomeView::AlreadyRedeemed { .. } => Some(ErrorKind::AlreadyRedeemed),
            OutcomeView::Internal { .. } => Some(ErrorKind::Unavailable),
            OutcomeView::ContentMissing { .. } => Some(ErrorKind::NotFound),
        }
    }
}

impl Outcome {
    /// The kind of error that the outcome amounts to; none for the caller
    /// that got the file. That a link was consumed before is an outcome
    /// like any other, and no failure of the service.
    pub fn error(&self) -> (kind: Option<ErrorKind>)
        ensures
            kind == self@.error(),
    {
        match self {
            Outcome::Content { .. } => None,
            Outcome::NotFound { .. } => Some(ErrorKind::NotFound),
            Outcome::AlreadyRedeemed { .. } => Some(ErrorKind::AlreadyRedeemed),
            Outcome::Internal { .. } => Some(ErrorKind::Unavailable),
            Outcome::ContentMissing { .. } => Some(ErrorKind::NotFound),
        }
    }
}

pub open spec fn no_link_message(token: Seq<char>, why: Seq<char>) -> Seq<char> {
    "Could not find file for link "@ + token + ": "@ + why
}

pub open spec fn failure_message(why: Seq<char>) -> Seq<char> {
    "Something went wrong! "@ + why
}

pub open spec fn no_contents_message(filename: Seq<char>, why: Seq<char>) -> Seq<char> {
    "Could not find contents for filename "@ + filename + ": "@ + why
}

/// Where an attempt stands.
pub enum Phase {
    /// The link has been asked for.
    AwaitingLink,
    /// `link` was read unconsumed; the write that consumes it is under way.
    AwaitingMark { link: LinkView },
    /// The link was consumed by this attempt; the file has been asked for.
    AwaitingFile { filename: Seq<char> },
    Done { outcome: OutcomeView },
}

pub open spec fn link_answer(fetched: Result<OnetimeLink, MyError>) -> Result<LinkView, ErrorView> {
    match fetched {
        Ok(link) => Ok(link@),
        Err(e) => Err(e@),
    }
}

pub open spec fn mark_answer(marked: Result<bool, MyError>) -> Result<bool, ErrorView> {
    match marked {
        Ok(lost) => Ok(lost),
        Err(e) => Err(e@),
    }
}

pub open spec fn file_answer(fetched: Result<OnetimeFile, MyError>) -> Result<FileView, ErrorView> {
    match fetched {
        Ok(file) => Ok(file@),
        Err(e) => Err(e@),
    }
}

/// What follows when the link comes back: without a link the attempt ends,
/// whatever the reason; a consumed link ends it too, before any write.
pub open spec fn decide_on_link(token: Seq<char>, fetched: Result<LinkView, ErrorView>) -> Phase {
    match fetched {
        Err(e) => Phase::Done {
            outcome: OutcomeView::NotFound { message: no_link_message(token, e.message) },
        },
        Ok(link) => if link.redeemed() {
            Phase::Done { outcome: OutcomeView::AlreadyRedeemed { raced: false } }
        } else {
            Phase::AwaitingMark { link }
        },
    }
}

/// What follows when the write comes back: only the caller whose write
/// consumed the link goes on to the file.
pub open spec fn decide_on_mark(filename: Seq<char>, marked: Result<bool, ErrorView>) -> Phase {
    match marked {
        Err(e) => Phase::Done {
            outcome: OutcomeView::Internal { message: failure_message(e.message) },
        },
        Ok(lost) => if lost {
            Phase::Done { outcome: OutcomeView::AlreadyRedeemed { raced: true } }
        } else {
            Phase::AwaitingFile { filename }
        },
    }
}

/// How the attempt ends when the file comes back.
pub open spec fn decide_on_file(filename: Seq<char>, fetched: Result<FileView, ErrorView>) -> OutcomeView {
    match fetched {
        Err(e) => OutcomeView::ContentMissing { message: no_contents_message(filename, e.message) },
        Ok(file) => OutcomeView::Content { filename, contents: file.contents },
    }
}

/// An attempt that has asked for its link.
pub struct Redemption {
    pub token: String,
    pub ip_address: String,
}

/// An attempt whose write is under way.
pub struct Marking {
    pub filename: String,
}

/// An attempt that has consumed its link and asked for the file.
pub struct Fetching {
    pub filename: String,
}

/// What to do once the link has come back.
pub enum AfterLink {
    Done(Outcome),
    /// Call `mark_downloaded` with these, and hand the answer to `next`.
    Mark { next: Marking, link: OnetimeLink, ip_address: String, downloaded_at: i64 },
}

/// What to do once the write has come back.
pub enum AfterMark {
    Done(Outcome),
    /// Call `get_file` with `next.filename`, and hand the answer to `next`.
    Fetch { next: Fetching },
}

impl AfterLink {
    pub open spec fn phase(self) -> Phase {
        match self {
            AfterLink::Done(outcome) => Phase::Done { outcome: outcome@ },
            AfterLink::Mark { link, .. } => Phase::AwaitingMark { link: link@ },
        }
    }
}

impl AfterMark {
    pub open spec fn phase(self) -> Phase {
        match self {
            AfterMark::Done(outcome) => Phase::Done { outcome: outcome@ },
            AfterMark::Fetch { next } => Phase::AwaitingFile { filename: next.filename@ },
        }
    }
}

impl Redemption {
    /// Begins an attempt. The caller asks storage for the link under
    /// `token` and hands the answer to `link_fetched`.
    pub fn begin(token: String, ip_address: String) -> (r: Redemption)
        ensures
            r.token@ == token@,
            r.ip_address@ == ip_address@,
    {
        Redemption { token, ip_address }
    }

    /// Decides on the answer to `get_link`; `now` is the clock's reading.
    pub fn link_fetched(self, fetched: Result<OnetimeLink, MyError>, now: i64) -> (r: AfterLink)
        ensures
            r.phase() == decide_on_link(self.token@, link_answer(fetched)),
            r matches AfterLink::Mark { next, link, ip_address, downloaded_at } ==> {
                &&& fetched == Ok::<OnetimeLink, MyError>(link)
                &&& next.filename@ == link@.filename
                &&& ip_address@ == self.ip_address@
                &&& downloaded_at == now
            },
    {
        match fetched {
            Err(why) => {
                let mut message = String::from_str("Could not find file for link ");
                message.append(self.token.as_str());
                message.append(": ");
                message.append(why.message.as_str());
                AfterLink::Done(Outcome::NotFound { message })
            },
            Ok(link) => {
                if link.downloaded_at.is_some() {
                    AfterLink::Done(Outcome::AlreadyRedeemed { raced: false })
                } else {
                    AfterLink::Mark {
                        next: Marking { filename: link.filename.clone() },
                        link,
                        ip_address: self.ip_address,
                        downloaded_at: now,
                    }
                }
            },
        }
    }
}

impl Marking {
    /// Decides on the answer to `mark_downloaded`.
    pub fn marked(self, marked: Result<bool, MyError>) -> (r: AfterMark)
        ensures
            r.phase() == decide_on_mark(self.filename@, mark_answer(marked)),
    {
        match marked {
            Err(why) => {
                let mut message = String::from_str("Something went wrong! ");
                message.append(why.message.as_str());
                AfterMark::Done(Outcome::Internal { message })
            },
            Ok(already_downloaded) => {
                if already_downloaded {
                    AfterMark::Done(Outcome::AlreadyRedeemed { raced: true })
                } else {
                    AfterMark::Fetch { next: Fetching { filename: self.filename } }
                }
            },
        }
    }
}

impl Fetching {
    /// Decides on the answer to `get_file`.
    pub fn file_fetched(self, fetched: Result<OnetimeFile, MyError>) -> (r: Outcome)
        ensures
            r@ == decide_on_file(self.filename@, file_answer(fetched)),
    {
        match fetched {
            Err(why) => {
                let mut message = String::from_str("Could not find contents for filename ");
                message.append(self.filename.as_str());
                message.append(": ");
                message.append(why.message.as_str());
                Outcome::ContentMissing { message }
            },
            Ok(file) => Outcome::Content { filename: self.filename, contents: file.contents },
        }
    }
}

/// How an attempt on `token` ends against a store that nobody else touches
/// meanwhile, apart from what the messages say.
pub enum Verdict {
    Content,
    NotFound,
    AlreadyRedeemed,
    ContentMissing,
}

impl StoreView {
    pub open spec fn verdict(self, token: Seq<char>) -> Verdict {
        if !self.links.contains_key(token) {
            Verdict::NotFound
        } else if self.links[token].redeemed() {
            Verdict::AlreadyRedeemed
        } else if self.files.contains_key(self.links[token].filename) {
            Verdict::Content
        } else {
            Verdict::ContentMissing
        }
    }
}

/// What holds of an attempt that ran from `before` to `after` against a
/// backend and ended with `outcome`.
pub open spec fn redeems(
    before: StoreView,
    dependable: bool,
    token: Seq<char>,
    ip_address: Seq<char>,
    now: i64,
    outcome: OutcomeView,
    after: StoreView,
) -> bool {
    // Without the link there is nothing to redeem, whatever else fails.
    &&& !before.links.contains_key(token) ==> outcome is NotFound
    // Only the caller that consumed the link gets as far as the file, and
    // nothing else is changed by anyone.
    &&& outcome is Content || outcome is ContentMissing ==> before.redeemable(token) && after
        == before.redeemed(token, ip_address, now)
    &&& outcome is NotFound || outcome is AlreadyRedeemed ==> after == before
    &&& outcome is Internal ==> !dependable && after == before
    &&& outcome matches OutcomeView::Content { filename, contents } ==> {
        &&& filename == before.links[token].filename
        &&& before.files.contains_key(filename)
        &&& contents == before.files[filename].contents
    }
    &&& outcome matches OutcomeView::AlreadyRedeemed { raced } ==> {
        &&& !raced
        &&& before.links.contains_key(token)
        &&& before.links[token].redeemed()
    }
    // What is said names the link or the file, and gives the backend's words.
    &&& outcome matches OutcomeView::NotFound { message } ==> exists|why: Seq<char>|
        message == #[trigger] no_link_message(token, why)
    &&& outcome matches OutcomeView::Internal { message } ==> exists|why: Seq<char>|
        message == #[trigger] failure_message(why)
    &&& outcome matches OutcomeView::ContentMissing { message } ==> exists|why: Seq<char>|
        message == #[trigger] no_contents_message(before.links[token].filename, why)
    // A backend that does not fail decides the outcome by what it holds.
    &&& dependable ==> match before.verdict(token) {
        Verdict::Content => outcome is Content,
        Verdict::NotFound => outcome is NotFound,
        Verdict::AlreadyRedeemed => outcome is AlreadyRedeemed,
        Verdict::ContentMissing => outcome is ContentMissing,
    }
}

/// Redeems the link under `token` for `ip_address` at `now`: reads the
/// link, stops if there is none or it has been consumed, consumes it, and
/// fetches the file only if that write was the one that consumed it.
pub fn redeem<S: OnetimeStorage>(storage: &mut S, token: String, ip_address: String, now: i64) -> (outcome:
    Outcome)
    ensures
        final(storage).dependable() == old(storage).dependable(),
        redeems(
            old(storage).store(),
            old(storage).dependable(),
            token@,
            ip_address@,
            now,
            outcome@,
            final(storage).store(),
        ),
{
    let attempt = Redemption::begin(token.clone(), ip_address);
    let fetched = storage.get_link(token);
    match attempt.link_fetched(fetched, now) {
        AfterLink::Done(outcome) => outcome,
        AfterLink::Mark { next, link, ip_address, downloaded_at } => {
            let marked = storage.mark_downloaded(link, ip_address, downloaded_at);
            match next.marked(marked) {
                AfterMark::Done(outcome) => outcome,
                AfterMark::Fetch { next } => {
                    let fetched = storage.get_file(next.filename.clone());
                    next.file_fetched(fetched)
                },
            }
        },
    }
}

} // verus!
