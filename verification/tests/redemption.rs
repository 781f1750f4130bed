use bytes::Bytes;
use onetime_downloader::models::{ErrorKind, MyError, OnetimeFile, OnetimeLink, OnetimeStorage};
use onetime_downloader::race::Attempt;
use onetime_downloader::redemption::{redeem, AfterLink, AfterMark, Fetching, Marking, Outcome, Redemption};
use onetime_downloader::storage::invalid;
use onetime_downloader::storage::memory::Storage;

const TOKEN: &str = "00000000000003e8000000000000002a";

fn report() -> OnetimeFile {
    OnetimeFile {
        filename: "report.pdf".to_string(),
        contents: Bytes::from(vec![37u8, 80, 68, 70]),
        created_at: 900,
        updated_at: 900,
    }
}

fn link_to_report() -> OnetimeLink {
    OnetimeLink {
        token: TOKEN.to_string(),
        filename: "report.pdf".to_string(),
        created_at: 1000,
        downloaded_at: None,
        ip_address: None,
    }
}

fn stocked() -> Storage {
    let mut storage = Storage::new();
    assert_eq!(storage.add_file(report()).unwrap(), true);
    assert_eq!(storage.add_link(link_to_report()).unwrap(), true);
    storage
}

fn is_report(outcome: &Outcome) -> bool {
    match outcome {
        Outcome::Content { filename, contents } => {
            filename == "report.pdf" && &contents[..] == &[37u8, 80, 68, 70][..]
        }
        _ => false,
    }
}

#[test]
fn first_redemption_gets_the_file() {
    let mut storage = stocked();
    let outcome = redeem(&mut storage, TOKEN.to_string(), "1.2.3.4".to_string(), 2000);
    assert!(is_report(&outcome), "unexpected outcome {:?}", outcome);
    let link = storage.get_link(TOKEN.to_string()).unwrap();
    assert_eq!(link.downloaded_at, Some(2000));
    assert_eq!(link.ip_address, Some("1.2.3.4".to_string()));
}

#[test]
fn second_redemption_is_refused() {
    let mut storage = stocked();
    assert!(is_report(&redeem(&mut storage, TOKEN.to_string(), "1.2.3.4".to_string(), 2000)));
    for later in 0..3 {
        let outcome = redeem(&mut storage, TOKEN.to_string(), "5.6.7.8".to_string(), 3000 + later);
        assert!(matches!(outcome, Outcome::AlreadyRedeemed { raced: false }));
        let link = storage.get_link(TOKEN.to_string()).unwrap();
        assert_eq!(link.downloaded_at, Some(2000));
        assert_eq!(link.ip_address, Some("1.2.3.4".to_string()));
    }
}

#[test]
fn token_that_was_never_issued_is_not_found() {
    let mut storage = stocked();
    for _ in 0..3 {
        match redeem(&mut storage, "nope".to_string(), "1.2.3.4".to_string(), 2000) {
            Outcome::NotFound { message } => {
                assert_eq!(message, "Could not find file for link nope: Link not found")
            }
            other => panic!("unexpected outcome {:?}", other),
        }
    }
    assert_eq!(storage.get_link(TOKEN.to_string()).unwrap().downloaded_at, None);
    let mut broken = invalid::Storage { error: "no backend".to_string() };
    match redeem(&mut broken, "nope".to_string(), "1.2.3.4".to_string(), 2000) {
        Outcome::NotFound { message } => {
            assert_eq!(message, "Could not find file for link nope: no backend")
        }
        other => panic!("unexpected outcome {:?}", other),
    }
}

#[test]
fn link_to_a_missing_file_is_consumed_without_content() {
    let mut storage = Storage::new();
    storage.add_link(link_to_report()).unwrap();
    match redeem(&mut storage, TOKEN.to_string(), "1.2.3.4".to_string(), 2000) {
        Outcome::ContentMissing { message } => assert_eq!(
            message,
            "Could not find contents for filename report.pdf: File not found"
        ),
        other => panic!("unexpected outcome {:?}", other),
    }
    assert_eq!(storage.get_link(TOKEN.to_string()).unwrap().downloaded_at, Some(2000));
}

#[test]
fn decisions_on_the_link() {
    let attempt = Redemption::begin("tok".to_string(), "1.2.3.4".to_string());
    assert_eq!(attempt.token, "tok");
    assert_eq!(attempt.ip_address, "1.2.3.4");
    let why = MyError::new(ErrorKind::Unavailable, "down".to_string());
    match attempt.link_fetched(Err(why), 5) {
        AfterLink::Done(Outcome::NotFound { message }) => {
            assert_eq!(message, "Could not find file for link tok: down")
        }
        _ => panic!("unexpected decision"),
    }
    let consumed = OnetimeLink { downloaded_at: Some(1), ..link_to_report() };
    let attempt = Redemption::begin("tok".to_string(), "1.2.3.4".to_string());
    assert!(matches!(
        attempt.link_fetched(Ok(consumed), 5),
        AfterLink::Done(Outcome::AlreadyRedeemed { raced: false })
    ));
    let attempt = Redemption::begin(TOKEN.to_string(), "1.2.3.4".to_string());
    match attempt.link_fetched(Ok(link_to_report()), 5) {
        AfterLink::Mark { next, link, ip_address, downloaded_at } => {
            assert_eq!(next.filename, "report.pdf");
            assert_eq!(link.token, TOKEN);
            assert_eq!(ip_address, "1.2.3.4");
            assert_eq!(downloaded_at, 5);
        }
        _ => panic!("unexpected decision"),
    }
}

#[test]
fn decisions_on_the_write() {
    let why = MyError::new(ErrorKind::Unavailable, "down".to_string());
    match (Marking { filename: "f".to_string() }).marked(Err(why)) {
        AfterMark::Done(Outcome::Internal { message }) => {
            assert_eq!(message, "Something went wrong! down")
        }
        _ => panic!("unexpected decision"),
    }
    assert!(matches!(
        (Marking { filename: "f".to_string() }).marked(Ok(true)),
        AfterMark::Done(Outcome::AlreadyRedeemed { raced: true })
    ));
    match (Marking { filename: "f".to_string() }).marked(Ok(false)) {
        AfterMark::Fetch { next } => assert_eq!(next.filename, "f"),
        _ => panic!("unexpected decision"),
    }
}

#[test]
fn decisions_on_the_file() {
    let why = MyError::new(ErrorKind::NotFound, "gone".to_string());
    match (Fetching { filename: "f".to_string() }).file_fetched(Err(why)) {
        Outcome::ContentMissing { message } => {
            assert_eq!(message, "Could not find contents for filename f: gone")
        }
        other => panic!("unexpected outcome {:?}", other),
    }
    let outcome = (Fetching { filename: "report.pdf".to_string() }).file_fetched(Ok(report()));
    assert!(is_report(&outcome));
}

#[test]
fn two_racing_attempts_one_winner() {
    let mut storage = stocked();
    let mut first = Attempt::new(TOKEN.to_string(), "1.2.3.4".to_string(), 2000);
    let mut second = Attempt::new(TOKEN.to_string(), "5.6.7.8".to_string(), 2000);
    assert!(first.outcome().is_none());
    // Both read the link before either writes.
    first = first.advance(&mut storage);
    second = second.advance(&mut storage);
    // The second writes first.
    second = second.advance(&mut storage);
    first = first.advance(&mut storage);
    // The loser is done and has fetched nothing; the winner fetches.
    assert!(matches!(first.outcome(), Some(Outcome::AlreadyRedeemed { raced: true })));
    assert!(second.outcome().is_none());
    second = second.advance(&mut storage);
    first = first.advance(&mut storage);
    assert!(is_report(second.outcome().unwrap()));
    assert!(matches!(first.outcome(), Some(Outcome::AlreadyRedeemed { raced: true })));
    let link = storage.get_link(TOKEN.to_string()).unwrap();
    assert_eq!(link.downloaded_at, Some(2000));
    assert_eq!(link.ip_address, Some("5.6.7.8".to_string()));
}

#[test]
fn outcomes_have_their_error_kinds() {
    let content = Outcome::Content { filename: "f".to_string(), contents: Bytes::new() };
    assert_eq!(content.error(), None);
    assert_eq!(Outcome::NotFound { message: String::new() }.error(), Some(ErrorKind::NotFound));
    assert_eq!(
        Outcome::AlreadyRedeemed { raced: false }.error(),
        Some(ErrorKind::AlreadyRedeemed)
    );
    assert_eq!(
        Outcome::AlreadyRedeemed { raced: true }.error(),
        Some(ErrorKind::AlreadyRedeemed)
    );
    assert_eq!(Outcome::Internal { message: String::new() }.error(), Some(ErrorKind::Unavailable));
    assert_eq!(
        Outcome::ContentMissing { message: String::new() }.error(),
        Some(ErrorKind::NotFound)
    );
}

fn schedules(racers: usize, steps: usize) -> Vec<Vec<usize>> {
    // Every order in which `racers` attempts can take `steps` steps each.
    fn extend(left: &mut Vec<usize>, so_far: &mut Vec<usize>, all: &mut Vec<Vec<usize>>) {
        if left.iter().all(|n| *n == 0) {
            all.push(so_far.clone());
            return;
        }
        for who in 0..left.len() {
            if left[who] > 0 {
                left[who] -= 1;
                so_far.push(who);
                extend(left, so_far, all);
                so_far.pop();
                left[who] += 1;
            }
        }
    }
    let mut all = Vec::new();
    extend(&mut vec![steps; racers], &mut Vec::new(), &mut all);
    all
}

fn race(racers: usize, schedule: &[usize]) {
    let mut storage = stocked();
    let addresses: Vec<String> = (0..racers).map(|who| format!("10.0.0.{}", who + 1)).collect();
    let mut attempts: Vec<Option<Attempt>> = (0..racers)
        .map(|who| Some(Attempt::new(TOKEN.to_string(), addresses[who].clone(), 2000 + who as i64)))
        .collect();
    for who in schedule.iter() {
        let attempt = attempts[*who].take().unwrap();
        attempts[*who] = Some(attempt.advance(&mut storage));
        let winners = attempts
            .iter()
            .filter(|a| a.as_ref().unwrap().outcome().map(is_report).unwrap_or(false))
            .count();
        assert!(winners <= 1, "schedule {:?}", schedule);
    }
    let mut winner = None;
    for (who, attempt) in attempts.iter().enumerate() {
        match attempt.as_ref().unwrap().outcome() {
            Some(outcome) if is_report(outcome) => {
                assert!(winner.is_none(), "schedule {:?}", schedule);
                winner = Some(who);
            }
            Some(Outcome::AlreadyRedeemed { .. }) => {}
            other => panic!("schedule {:?}: unexpected outcome {:?}", schedule, other),
        }
    }
    let winner = winner.expect("one attempt wins");
    let link = storage.get_link(TOKEN.to_string()).unwrap();
    assert_eq!(link.downloaded_at, Some(2000 + winner as i64));
    assert_eq!(link.ip_address, Some(addresses[winner].clone()));
    assert_eq!(link.filename, "report.pdf");
    assert_eq!(link.created_at, 1000);
}

#[test]
fn every_order_of_two_racers_has_one_winner() {
    let all = schedules(2, 3);
    assert_eq!(all.len(), 20);
    for schedule in all.iter() {
        race(2, schedule);
    }
}

#[test]
fn every_order_of_three_racers_has_one_winner() {
    let all = schedules(3, 3);
    assert_eq!(all.len(), 1680);
    for schedule in all.iter() {
        race(3, schedule);
    }
}

#[test]
fn finished_attempt_stays_finished() {
    let mut storage = stocked();
    let mut attempt = Attempt::new(TOKEN.to_string(), "1.2.3.4".to_string(), 2000);
    for _ in 0..6 {
        attempt = attempt.advance(&mut storage);
    }
    assert!(is_report(attempt.outcome().unwrap()));
    assert_eq!(storage.get_link(TOKEN.to_string()).unwrap().downloaded_at, Some(2000));
}
