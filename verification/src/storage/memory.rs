//! A backend that keeps its records in memory. It is the storage port taken
//! at its word: every operation does what the port's contract names, and
//! none fails for a reason of its own.

use crate::models::{
    lists_files, lists_links, ErrorKind, FileView, LinkView, MyError, OnetimeFile, OnetimeLink,
    OnetimeStorage, StoreView,
};
use crate::table::Table;
use vstd::prelude::*;

verus! {

pub struct Storage {
    files: Table<OnetimeFile>,
    links: Table<OnetimeLink>,
}

pub open spec fn file_views(files: Map<Seq<char>, OnetimeFile>) -> Map<Seq<char>, FileView> {
    Map::new(|k: Seq<char>| files.contains_key(k), |k: Seq<char>| files[k]@)
}

pub open spec fn link_views(links: Map<Seq<char>, OnetimeLink>) -> Map<Seq<char>, LinkView> {
    Map::new(|k: Seq<char>| links.contains_key(k), |k: Seq<char>| links[k]@)
}

impl Storage {
    #[verifier::type_invariant]
    closed spec fn inv(self) -> bool {
        &&& forall|k: Seq<char>| #[trigger]
            self.files@.contains_key(k) ==> self.files@[k]@.filename == k
        &&& forall|k: Seq<char>| #[trigger] self.links@.contains_key(k) ==> self.links@[k]@.token == k
    }

    /// What is held, record by record.
    pub closed spec fn held(self) -> StoreView {
        StoreView { files: file_views(self.files@), links: link_views(self.links@) }
    }

    /// A backend that holds nothing yet.
    pub fn new() -> (s: Storage)
        ensures
            s.store() == StoreView::empty(),
    {
        let s = Storage { files: Table::new(), links: Table::new() };
        assert(s.held().files =~= Map::empty());
        assert(s.held().links =~= Map::empty());
        s
    }
}

impl OnetimeStorage for Storage {
    open spec fn store(&self) -> StoreView {
        self.held()
    }

    open spec fn dependable(&self) -> bool {
        true
    }

    /// The file replaces one of the same name whole, creation time included.
    fn add_file(&mut self, file: OnetimeFile) -> (r: Result<bool, MyError>)
        ensures
            r == Ok::<bool, MyError>(true),
            final(self).store() == old(self).store().with_file(file@),
    {
        proof {
            use_type_invariant(&*self);
        }
        let ghost before = self.held();
        let mut taken = Storage::new();
        core::mem::swap(self, &mut taken);
        let Storage { mut files, links } = taken;
        let key = file.filename.clone();
        files.insert(key, file);
        *self = Storage { files, links };
        assert(self.held().files =~= before.with_file(file@).files);
        Ok(true)
    }

    fn list_files(&self) -> (r: Result<Vec<OnetimeFile>, MyError>)
        ensures
            r is Ok,
    {
        proof {
            use_type_invariant(self);
        }
        let n = self.files.len();
        let mut listed: Vec<OnetimeFile> = Vec::new();
        let mut i: usize = 0;
        while i < n
            invariant
                i <= n,
                n == self.files.spec_keys().len(),
                self.files.listed(),
                listed.len() == i,
                forall|j: int| 0 <= j < i ==> #[trigger] listed[j]@ == self.files.spec_values()[j]@,
            decreases n - i,
        {
            listed.push(self.files.value_at(i).clone());
            i = i + 1;
        }
        proof {
            let all = self.store().files;
            let keys = self.files.spec_keys();
            let values = self.files.spec_values();
            assert forall|j: int| 0 <= j < listed.len() implies listed[j]@.filename == keys[j]
                && #[trigger] all.contains_key(listed[j]@.filename) && all[listed[j]@.filename]
                == listed[j]@ by {
                assert(self.files@.contains_key(keys[j]));
                assert(listed[j]@ == values[j]@);
            }
            assert forall|k: Seq<char>| #[trigger] all.contains_key(k) implies exists|j: int|
                0 <= j < listed.len() && listed[j]@.filename == k by {
                assert(self.files@.contains_key(k));
                let j = choose|j: int| 0 <= j < keys.len() && keys[j] == k;
                assert(listed[j]@.filename == keys[j]);
            }
            assert forall|a: int, b: int| 0 <= a < b < listed.len() implies listed[a]@.filename
                != listed[b]@.filename by {
                assert(self.files@.contains_key(keys[a]));
                assert(self.files@.contains_key(keys[b]));
                assert(listed[a]@ == values[a]@);
                assert(listed[b]@ == values[b]@);
            }
            assert(lists_files(listed@, all));
        }
        Ok(listed)
    }

    fn get_file(&self, filename: String) -> (r: Result<OnetimeFile, MyError>)
        ensures
            r is Ok <==> self.store().files.contains_key(filename@),
            r matches Err(e) ==> e@.message == "File not found"@,
    {
        proof {
            use_type_invariant(self);
        }
        match self.files.get(filename.as_str()) {
            Some(file) => Ok(file.clone()),
            None => Err(MyError::new(ErrorKind::NotFound, String::from_str("File not found"))),
        }
    }

    fn add_link(&mut self, link: OnetimeLink) -> (r: Result<bool, MyError>)
        ensures
            r == Ok::<bool, MyError>(true),
    {
        proof {
            use_type_invariant(&*self);
        }
        let ghost before = self.held();
        let mut taken = Storage::new();
        core::mem::swap(self, &mut taken);
        let Storage { files, mut links } = taken;
        let key = link.token.clone();
        links.insert(key, link.issued());
        *self = Storage { files, links };
        assert(self.held().links =~= before.with_link(link@.issued()).links);
        Ok(true)
    }

    fn list_links(&self) -> (r: Result<Vec<OnetimeLink>, MyError>)
        ensures
            r is Ok,
    {
        proof {
            use_type_invariant(self);
        }
        let n = self.links.len();
        let mut listed: Vec<OnetimeLink> = Vec::new();
        let mut i: usize = 0;
        while i < n
            invariant
                i <= n,
                n == self.links.spec_keys().len(),
                self.links.listed(),
                listed.len() == i,
                forall|j: int| 0 <= j < i ==> #[trigger] listed[j]@ == self.links.spec_values()[j]@,
            decreases n - i,
        {
            listed.push(self.links.value_at(i).clone());
            i = i + 1;
        }
        proof {
            let all = self.store().links;
            let keys = self.links.spec_keys();
            let values = self.links.spec_values();
            assert forall|j: int| 0 <= j < listed.len() implies listed[j]@.token == keys[j]
                && #[trigger] all.contains_key(listed[j]@.token) && all[listed[j]@.token]
                == listed[j]@ by {
                assert(self.links@.contains_key(keys[j]));
                assert(listed[j]@ == values[j]@);
            }
            assert forall|k: Seq<char>| #[trigger] all.contains_key(k) implies exists|j: int|
                0 <= j < listed.len() && listed[j]@.token == k by {
                assert(self.links@.contains_key(k));
                let j = choose|j: int| 0 <= j < keys.len() && keys[j] == k;
                assert(listed[j]@.token == keys[j]);
            }
            assert forall|a: int, b: int| 0 <= a < b < listed.len() implies listed[a]@.token
                != listed[b]@.token by {
                assert(self.links@.contains_key(keys[a]));
                assert(self.links@.contains_key(keys[b]));
                assert(listed[a]@ == values[a]@);
                assert(listed[b]@ == values[b]@);
            }
            assert(lists_links(listed@, all));
        }
        Ok(listed)
    }

    fn get_link(&self, token: String) -> (r: Result<OnetimeLink, MyError>)
        ensures
            r is Ok <==> self.store().links.contains_key(token@),
            r matches Err(e) ==> e@.message == "Link not found"@,
    {
        proof {
            use_type_invariant(self);
        }
        match self.links.get(token.as_str()) {
            Some(link) => Ok(link.clone()),
            None => Err(MyError::new(ErrorKind::NotFound, String::from_str("Link not found"))),
        }
    }

    /// The stored link is changed only where it is there and unconsumed;
    /// what `link` says beyond its token is not looked at.
    fn mark_downloaded(&mut self, link: OnetimeLink, ip_address: String, downloaded_at: i64) -> (r:
        Result<bool, MyError>)
        ensures
            r is Ok,
    {
        proof {
            use_type_invariant(&*self);
        }
        let ghost before = self.held();
        let consumed = match self.links.get(link.token.as_str()) {
            Some(stored) => if stored.downloaded_at.is_none() {
                Some(
                    OnetimeLink {
                        token: stored.token.clone(),
                        filename: stored.filename.clone(),
                        created_at: stored.created_at,
                        downloaded_at: Some(downloaded_at),
                        ip_address: Some(ip_address),
                    },
                )
            } else {
                None
            },
            None => None,
        };
        match consumed {
            Some(now_consumed) => {
                let mut taken = Storage::new();
                core::mem::swap(self, &mut taken);
                let Storage { files, mut links } = taken;
                let key = now_consumed.token.clone();
                links.insert(key, now_consumed);
                *self = Storage { files, links };
                assert(self.held().links =~= before.redeemed(
                    link@.token,
                    ip_address@,
                    downloaded_at,
                ).links);
                Ok(false)
            },
            None => Ok(true),
        }
    }
}

} // verus!
