//! Converting what a backend hands back, record by record.

use crate::models::{ErrorKind, ErrorView, FileView, LinkView, MyError, OnetimeFile, OnetimeLink};
use vstd::prelude::*;

verus! {

pub open spec fn conversion_message(name: Seq<char>, why: Seq<char>) -> Seq<char> {
    "Failed converting "@ + name + ": "@ + why
}

/// `out` holds, position by position, what the items convert to.
pub open spec fn converted<T, U: TryFrom<T, Error = MyError>>(items: Seq<T>, out: Seq<U>) -> bool {
    &&& out.len() == items.len()
    &&& forall|i: int|
        0 <= i < items.len() ==> call_ensures(
            U::try_from,
            (#[trigger] items[i],),
            Ok::<U, MyError>(out[i]),
        )
}

/// The item at `at` is the first that does not convert, and `why` is what
/// its conversion reports.
pub open spec fn first_failure<T, U: TryFrom<T, Error = MyError>>(
    items: Seq<T>,
    at: int,
    why: MyError,
) -> bool {
    &&& 0 <= at < items.len()
    &&& exists|before: Seq<U>| #[trigger] converted(items.take(at), before)
    &&& call_ensures(U::try_from, (items[at],), Err::<U, MyError>(why))
}

/// Converts every item, in order. The first item that does not convert
/// ends the work: its error comes back with `name`, the kind of thing that
/// was being converted, put before its message.
pub fn try_from_vec<T, U: TryFrom<T, Error = MyError>>(items: Vec<T>, name: &'static str) -> (r:
    Result<Vec<U>, MyError>)
    ensures
        match r {
            Ok(out) => converted(items@, out@),
            Err(e) => exists|at: int, why: MyError| #[trigger]
                first_failure::<T, U>(items@, at, why) && e@.kind == why@.kind && e@.message
                    == conversion_message(name@, why@.message),
        },
{
    let mut vec: Vec<U> = Vec::new();
    let ghost all = items@;
    for item in it: items
        invariant
            it.seq() == all,
            converted(all.take(it.index() as int), vec@),
    {
        let ghost at = it.index() as int;
        match U::try_from(item) {
            Err(why) => {
                let mut message = String::from_str("Failed converting ");
                message.append(name);
                message.append(": ");
                message.append(why.message.as_str());
                let e = MyError::new(why.kind, message);
                proof {
                    assert(first_failure::<T, U>(all, at, why));
                }
                return Err(e);
            },
            Ok(file) => {
                let ghost before = vec@;
                vec.push(file);
                proof {
                    let now = all.take(at + 1);
                    assert forall|i: int| 0 <= i < now.len() implies call_ensures(
                        U::try_from,
                        (#[trigger] now[i],),
                        Ok::<U, MyError>(vec@[i]),
                    ) by {
                        if i < at {
                            assert(all.take(at)[i] == now[i]);
                            assert(vec@[i] == before[i]);
                        }
                    }
                }
            },
        }
    }
    proof {
        assert(all.take(all.len() as int) =~= all);
    }
    Ok(vec)
}

/// How a batch of items reads, given how each item reads: all of them, in
/// order, or the complaint about the first that does not read, with
/// `name`, the kind of thing that was being read, put before it.
pub open spec fn batch_reads<T, V>(
    items: Seq<T>,
    read: spec_fn(T) -> Result<V, ErrorView>,
    name: Seq<char>,
    r: Result<Seq<V>, ErrorView>,
) -> bool {
    match r {
        Ok(out) => out.len() == items.len() && forall|i: int|
            0 <= i < items.len() ==> read(#[trigger] items[i]) == Ok::<V, ErrorView>(out[i]),
        Err(e) => exists|at: int|
            {
                &&& 0 <= at < items.len()
                &&& forall|j: int| 0 <= j < at ==> read(#[trigger] items[j]) is Ok
                &&& read(#[trigger] items[at]) matches Err(why) && e == (ErrorView {
                    kind: why.kind,
                    message: conversion_message(name, why.message),
                })
            },
    }
}

/// What `try_from_vec` hands back reads as `batch_reads` says, where `read`
/// says how the conversion of one item reads and `view` how a converted
/// item is viewed.
pub proof fn lemma_batch_reads<T, U: TryFrom<T, Error = MyError>, V>(
    items: Seq<T>,
    name: Seq<char>,
    r: Result<Vec<U>, MyError>,
    read: spec_fn(T) -> Result<V, ErrorView>,
    view: spec_fn(U) -> V,
)
    requires
        forall|t: T, u: U| #[trigger]
            call_ensures(U::try_from, (t,), Ok::<U, MyError>(u)) ==> read(t) == Ok::<
                V,
                ErrorView,
            >(view(u)),
        forall|t: T, e: MyError| #[trigger]
            call_ensures(U::try_from, (t,), Err::<U, MyError>(e)) ==> read(t) == Err::<
                V,
                ErrorView,
            >(e@),
        match r {
            Ok(out) => converted(items, out@),
            Err(e) => exists|at: int, why: MyError| #[trigger]
                first_failure::<T, U>(items, at, why) && e@.kind == why@.kind && e@.message
                    == conversion_message(name, why@.message),
        },
    ensures
        batch_reads(
            items,
            read,
            name,
            match r {
                Ok(out) => Ok(Seq::new(out.len() as nat, |i: int| view(out[i]))),
                Err(e) => Err(e@),
            },
        ),
{
    match r {
        Ok(out) => {
            assert forall|i: int| 0 <= i < items.len() implies read(#[trigger] items[i]) == Ok::<
                V,
                ErrorView,
            >(view(out[i])) by {
                assert(call_ensures(U::try_from, (items[i],), Ok::<U, MyError>(out@[i])));
            }
        },
        Err(e) => {
            let (at, why) = choose|at: int, why: MyError| #[trigger]
                first_failure::<T, U>(items, at, why) && e@.kind == why@.kind && e@.message
                    == conversion_message(name, why@.message);
            let before = choose|before: Seq<U>| #[trigger] converted(items.take(at), before);
            assert forall|j: int| 0 <= j < at implies read(#[trigger] items[j]) is Ok by {
                assert(items.take(at)[j] == items[j]);
                assert(call_ensures(
                    U::try_from,
                    (items.take(at)[j],),
                    Ok::<U, MyError>(before[j]),
                ));
            }
            assert(read(items[at]) == Err::<V, ErrorView>(why@));
        },
    }
}

/// The error for a stored record that does not read as an entity.
pub open spec fn malformed(message: Seq<char>) -> ErrorView {
    ErrorView { kind: ErrorKind::Malformed, message }
}

/// The error for a call that the backend did not carry out.
pub open spec fn unavailable(operation: Seq<char>, why: Seq<char>) -> ErrorView {
    ErrorView { kind: ErrorKind::Unavailable, message: operation + " failed: "@ + why }
}

/// The error for a record that is not there.
pub open spec fn not_found(message: Seq<char>) -> ErrorView {
    ErrorView { kind: ErrorKind::NotFound, message }
}

/// Builds `unavailable`.
pub fn failed(operation: &str, why: &str) -> (e: MyError)
    ensures
        e@ == unavailable(operation@, why@),
{
    let mut message = String::from_str(operation);
    message.append(" failed: ");
    message.append(why);
    MyError::new(ErrorKind::Unavailable, message)
}

/// Builds `not_found`.
pub fn absent(message: &str) -> (e: MyError)
    ensures
        e@ == not_found(message@),
{
    MyError::new(ErrorKind::NotFound, String::from_str(message))
}

/// How a file is viewed.
pub open spec fn file_view() -> spec_fn(OnetimeFile) -> FileView {
    |file: OnetimeFile| file@
}

/// How a link is viewed.
pub open spec fn link_view() -> spec_fn(OnetimeLink) -> LinkView {
    |link: OnetimeLink| link@
}

pub open spec fn files_answer(r: Result<Vec<OnetimeFile>, MyError>) -> Result<Seq<FileView>, ErrorView> {
    match r {
        Ok(files) => Ok(Seq::new(files.len() as nat, |i: int| file_view()(files[i]))),
        Err(e) => Err(e@),
    }
}

pub open spec fn links_answer(r: Result<Vec<OnetimeLink>, MyError>) -> Result<Seq<LinkView>, ErrorView> {
    match r {
        Ok(links) => Ok(Seq::new(links.len() as nat, |i: int| link_view()(links[i]))),
        Err(e) => Err(e@),
    }
}

} // verus!
