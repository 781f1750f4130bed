use onetime_downloader::models::{ErrorKind, MyError};
use onetime_downloader::storage::util::try_from_vec;
use std::convert::TryFrom;

#[derive(Debug, PartialEq)]
struct Even(u32);

impl TryFrom<u32> for Even {
    type Error = MyError;

    fn try_from(n: u32) -> Result<Self, MyError> {
        if n % 2 == 0 {
            Ok(Even(n))
        } else {
            Err(MyError::new(ErrorKind::Malformed, format!("{} is odd", n)))
        }
    }
}

#[test]
fn try_from_vec_converts_in_order() {
    let converted: Vec<Even> = try_from_vec(vec![2u32, 4, 0, 8], "numbers").unwrap();
    assert_eq!(converted, vec![Even(2), Even(4), Even(0), Even(8)]);
}

#[test]
fn try_from_vec_of_nothing() {
    let converted: Vec<Even> = try_from_vec(Vec::<u32>::new(), "numbers").unwrap();
    assert_eq!(converted, Vec::<Even>::new());
}

#[test]
fn try_from_vec_reports_the_first_failure() {
    let result: Result<Vec<Even>, MyError> = try_from_vec(vec![2u32, 3, 4, 5], "numbers");
    let e = result.unwrap_err();
    assert_eq!(e.kind, ErrorKind::Malformed);
    assert_eq!(e.message, "Failed converting numbers: 3 is odd");
}
