//! The customer directory: identity records looked up by email.
//!
//! The deployed service keeps these records in its storage collaborator; the
//! core relies only on the interface modelled here — lookup by email,
//! creation, existence by id — and never inspects or mutates any other
//! customer attribute. Both the id and the email of a customer are unique
//! across the directory.

use vstd::prelude::*;
use crate::errors::ApiError;

verus! {

/// One identity record: an opaque unique id, stable for the account's
/// lifetime, and the unique email it was registered under.
#[derive(Debug)]
pub struct Customer {
    /// Opaque unique identifier, as text.
    pub id: String,
    /// The account's email address.
    pub email: String,
}

/// The mathematical value of a `Customer`.
pub struct CustomerV {
    /// The id, as a sequence of characters.
    pub id: Seq<char>,
    /// The email, as a sequence of characters.
    pub email: Seq<char>,
}

impl View for Customer {
    type V = CustomerV;

    open spec fn view(&self) -> CustomerV {
        CustomerV { id: self.id@, email: self.email@ }
    }
}

impl DeepView for Customer {
    type V = CustomerV;

    open spec fn deep_view(&self) -> CustomerV {
        self@
    }
}

impl Customer {
    /// A copy of the record with the same id and email.
    pub fn duplicate(&self) -> (r: Customer)
        ensures
            r@ == self@,
    {
        Customer { id: self.id.clone(), email: self.email.clone() }
    }
}

/// Whether some record in `cs` carries `email`.
pub open spec fn has_email(cs: Seq<CustomerV>, email: Seq<char>) -> bool {
    exists|i: int| 0 <= i < cs.len() && cs[i].email == email
}

/// Whether some record in `cs` carries `id`.
pub open spec fn has_id(cs: Seq<CustomerV>, id: Seq<char>) -> bool {
    exists|i: int| 0 <= i < cs.len() && cs[i].id == id
}

/// The record carrying `email`; meaningful when `has_email` holds and the
/// directory is well formed, which make that record unique.
pub open spec fn customer_with_email(cs: Seq<CustomerV>, email: Seq<char>) -> CustomerV {
    cs[choose|i: int| 0 <= i < cs.len() && cs[i].email == email]
}

/// Well-formedness of a directory value: ids and emails are unique.
pub open spec fn dir_wf(cs: Seq<CustomerV>) -> bool {
    forall|i: int, j: int|
        0 <= i < j < cs.len() ==> cs[i].id != cs[j].id && cs[i].email != cs[j].email
}

/// The directory of customers.
pub struct Directory {
    customers: Vec<Customer>,
}

impl View for Directory {
    type V = Seq<CustomerV>;

    closed spec fn view(&self) -> Seq<CustomerV> {
        self.customers.deep_view()
    }
}

impl Directory {
    /// Well-formedness: ids and emails are unique across the directory.
    pub open spec fn wf(&self) -> bool {
        dir_wf(self@)
    }

    /// An empty directory.
    pub fn new() -> (r: Directory)
        ensures
            r@ == Seq::<CustomerV>::empty(),
            r.wf(),
    {
        Directory { customers: Vec::new() }
    }

    /// The number of records.
    pub fn len(&self) -> (r: usize)
        ensures
            r == self@.len(),
    {
        self.customers.len()
    }

    /// Look a customer up by email; `None` when no record carries it.
    pub fn find_by_email(&self, email: &String) -> (r: Option<Customer>)
        requires
            self.wf(),
        ensures
            match r {
                Some(c) => has_email(self@, email@) && c@ == customer_with_email(self@, email@),
                None => !has_email(self@, email@),
            },
    {
        let n = self.customers.len();
        let mut i: usize = 0;
        while i < n
            invariant
                n == self@.len(),
                0 <= i <= n,
                self.wf(),
                forall|j: int| 0 <= j < i ==> self@[j].email != email@,
            decreases n - i,
        {
            let c = &self.customers[i];
            if c.email == *email {
                proof {
                    assert(self@[i as int].email == email@);
                    let k = choose|k: int| 0 <= k < self@.len() && self@[k].email == email@;
                    if k < i {
                        assert(self@[k].email != self@[i as int].email);
                    } else if k > i {
                        assert(self@[i as int].email != self@[k].email);
                    }
                    assert(k == i);
                }
                return Some(c.duplicate());
            }
            i += 1;
        }
        None
    }

    /// Whether a record with the given id exists.
    pub fn exists_id(&self, id: &String) -> (r: bool)
        ensures
            r == has_id(self@, id@),
    {
        let n = self.customers.len();
        let mut i: usize = 0;
        while i < n
            invariant
                n == self@.len(),
                0 <= i <= n,
                forall|j: int| 0 <= j < i ==> self@[j].id != id@,
            decreases n - i,
        {
            let c = &self.customers[i];
            if c.id == *id {
                proof {
                    assert(0 <= i < self@.len() && self@[i as int].id == id@);
                }
                return true;
            }
            i += 1;
        }
        false
    }

    /// Create a record for `email` under the (freshly generated) `id`.
    ///
    /// Policy choice, applied uniformly: registering an email that already
    /// exists is rejected as `InvalidRequest`; the existing record is kept.
    /// A collision of the generated id is an internal fault, reported as
    /// `ServerError`, and changes nothing.
    pub fn create(&mut self, id: String, email: String) -> (r: Result<Customer, ApiError>)
        requires
            old(self).wf(),
        ensures
            final(self).wf(),
            has_email(old(self)@, email@) ==> r == Err::<Customer, ApiError>(ApiError::InvalidRequest)
                && final(self)@ == old(self)@,
            !has_email(old(self)@, email@) && has_id(old(self)@, id@) ==> r
                == Err::<Customer, ApiError>(ApiError::ServerError) && final(self)@ == old(self)@,
            !has_email(old(self)@, email@) && !has_id(old(self)@, id@) ==> (match r {
                Ok(c) => c@ == (CustomerV { id: id@, email: email@ }) && final(self)@ == old(
                    self,
                )@.push(c@),
                Err(_) => false,
            }),
    {
        if self.find_by_email(&email).is_some() {
            return Err(ApiError::InvalidRequest);
        }
        if self.exists_id(&id) {
            return Err(ApiError::ServerError);
        }
        let c = Customer { id, email };
        let rec = c.duplicate();
        self.customers.push(c);
        proof {
            assert(self@ =~= old(self)@.push(rec@));
            assert forall|i: int, j: int| 0 <= i < j < self@.len() implies self@[i].id != self@[j].id
                && self@[i].email != self@[j].email by {
                if j == self@.len() - 1 {
                    assert(self@[i] == old(self)@[i]);
                    assert(!has_id(old(self)@, rec@.id));
                    assert(!has_email(old(self)@, rec@.email));
                }
            }
        }
        Ok(rec)
    }
}

} // verus!
