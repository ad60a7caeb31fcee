//! Rentals: one lending of a book to a member or a guild over a date range.

use vstd::prelude::*;

use super::BookId;
use super::Database;
use super::DatabaseV;
use super::Date;
use super::EntityId;
use super::EntityType;
use super::Id;
use super::book_with_id;
use super::date_valid;
use super::rentee_exists;
use super::GuildId;
use crate::database::member::MemberId;
use crate::error::Error;

verus! {

pub type RentalId = Id;

/// One rental record. All its constituents are plain values, so the record
/// is its own mathematical model.
#[derive(Debug, Clone, Copy, PartialEq, Eq)]
pub struct Rental {
    pub id: Option<RentalId>,
    pub from: Date,
    pub to: Date,
    pub book: BookId,
    pub rentee_type: EntityType,
    pub rentee: EntityId,
}

impl DeepView for Rental {
    type V = Rental;

    open spec fn deep_view(&self) -> Rental {
        *self
    }
}

impl Rental {
    /// A record from its constituents; a record not yet stored has no id.
    pub fn new(
        id: Option<RentalId>,
        from: Date,
        to: Date,
        book: BookId,
        rentee: EntityId,
        rentee_type: EntityType,
    ) -> (r: Rental)
        ensures
            r == (Rental { id, from, to, book, rentee_type, rentee }),
    {
        Rental { id, from, to, book, rentee, rentee_type }
    }

    /// A record as a stored row hands it back: the rentee type arrives as
    /// text, and the rentee id sits in the member or the guild column as
    /// that type directs. A text naming no type, or an empty rentee column
    /// where the type points, is refused with a message.
    pub fn from_db(
        id: RentalId,
        from: Date,
        to: Date,
        book: BookId,
        rentee_member: Option<MemberId>,
        rentee_guild: Option<GuildId>,
        rentee_type: String,
    ) -> (r: Result<Rental, String>)
        ensures
            rentee_type@ != "member"@ && rentee_type@ != "guild"@ ==> (r matches Err(m) && m@
                == "Bad rentee_type"@),
            rentee_type@ == "member"@ && rentee_member is None ==> (r matches Err(m) && m@
                == "Field 'rentee_member' or 'rentee_guild' is not set according to 'rentee_type'."@),
            rentee_type@ == "guild"@ && rentee_guild is None ==> (r matches Err(m) && m@
                == "Field 'rentee_member' or 'rentee_guild' is not set according to 'rentee_type'."@),
            rentee_type@ == "member"@ && rentee_member is Some ==> r == Ok::<Rental, String>(
                Rental {
                    id: Some(id),
                    from,
                    to,
                    book,
                    rentee_type: EntityType::Member,
                    rentee: rentee_member->0,
                },
            ),
            rentee_type@ == "guild"@ && rentee_guild is Some ==> r == Ok::<Rental, String>(
                Rental {
                    id: Some(id),
                    from,
                    to,
                    book,
                    rentee_type: EntityType::Guild,
                    rentee: rentee_guild->0,
                },
            ),
    {
        let rentee_type = match EntityType::from_str(rentee_type.as_str()) {
            Ok(x) => x,
            Err(_) => {
                return Err("Bad rentee_type".to_owned());
            },
        };
        let rentee: EntityId = match (match rentee_type {
            EntityType::Member => rentee_member,
            EntityType::Guild => rentee_guild,
        }) {
            Some(x) => x,
            None => {
                return Err(
                    "Field 'rentee_member' or 'rentee_guild' is not set according to 'rentee_type'.".to_owned(),
                );
            },
        };
        Ok(Rental::new(Some(id), from, to, book, rentee, rentee_type))
    }
}

impl Database {
    /// Stores a new rental under a fresh id and returns the id. A date
    /// outside the storable range is refused with `IllegalValueForType`; an
    /// unknown book or rentee is refused with `ConstraintError`.
    pub fn insert_rental(&mut self, rental: &Rental) -> (r: Result<RentalId, Error>)
        ensures
            !date_valid(rental.from) ==> (r matches Err(Error::IllegalValueForType(f)) && f@
                == "from"@) && final(self)@ == old(self)@,
            date_valid(rental.from) && !date_valid(rental.to) ==> (r matches Err(
                Error::IllegalValueForType(f),
            ) && f@ == "to"@) && final(self)@ == old(self)@,
            date_valid(rental.from) && date_valid(rental.to) && !book_with_id(
                old(self)@.books,
                rental.book,
            ) ==> (r matches Err(Error::ConstraintError(f)) && f@ == "book"@) && final(self)@
                == old(self)@,
            date_valid(rental.from) && date_valid(rental.to) && book_with_id(
                old(self)@.books,
                rental.book,
            ) && !rentee_exists(old(self)@, rental.rentee_type, rental.rentee) ==> (r matches Err(
                Error::ConstraintError(f),
            ) && f@ == "rentee"@) && final(self)@ == old(self)@,
            date_valid(rental.from) && date_valid(rental.to) && book_with_id(
                old(self)@.books,
                rental.book,
            ) && rentee_exists(old(self)@, rental.rentee_type, rental.rentee) && old(self)@.next_id
                == u64::MAX ==> (r matches Err(e) && e == Error::IllegalState) && final(self)@
                == old(self)@,
            date_valid(rental.from) && date_valid(rental.to) && book_with_id(
                old(self)@.books,
                rental.book,
            ) && rentee_exists(old(self)@, rental.rentee_type, rental.rentee) && old(self)@.next_id
                < u64::MAX ==> ({
                &&& r == Ok::<RentalId, Error>(old(self)@.next_id)
                &&& final(self)@ == (DatabaseV {
                    rentals: old(self)@.rentals.push(
                        Rental { id: Some(old(self)@.next_id), ..*rental },
                    ),
                    next_id: (old(self)@.next_id + 1) as u64,
                    ..old(self)@
                })
            }),
    {
        match self.check_rental(rental) {
            Err(e) => {
                return Err(e);
            },
            Ok(()) => (),
        }
        let id = match self.take_id() {
            Err(e) => {
                return Err(e);
            },
            Ok(id) => id,
        };
        let stored = Rental { id: Some(id), ..*rental };
        self.rentals.push(stored);
        proof {
            assert(self@.rentals =~= old(self)@.rentals.push(stored));
            assert(self@ =~= (DatabaseV {
                rentals: old(self)@.rentals.push(stored),
                next_id: (old(self)@.next_id + 1) as u64,
                ..old(self)@
            }));
        }
        Ok(id)
    }

    /// Checks a rental's dates and references; the store is untouched.
    fn check_rental(&self, rental: &Rental) -> (r: Result<(), Error>)
        ensures
            !date_valid(rental.from) ==> (r matches Err(Error::IllegalValueForType(f)) && f@
                == "from"@),
            date_valid(rental.from) && !date_valid(rental.to) ==> (r matches Err(
                Error::IllegalValueForType(f),
            ) && f@ == "to"@),
            date_valid(rental.from) && date_valid(rental.to) && !book_with_id(
                self@.books,
                rental.book,
            ) ==> (r matches Err(Error::ConstraintError(f)) && f@ == "book"@),
            date_valid(rental.from) && date_valid(rental.to) && book_with_id(
                self@.books,
                rental.book,
            ) && !rentee_exists(self@, rental.rentee_type, rental.rentee) ==> (r matches Err(
                Error::ConstraintError(f),
            ) && f@ == "rentee"@),
            date_valid(rental.from) && date_valid(rental.to) && book_with_id(
                self@.books,
                rental.book,
            ) && rentee_exists(self@, rental.rentee_type, rental.rentee) ==> r is Ok,
    {
        if !super::check_date_valid(&rental.from) {
            return Err(Error::IllegalValueForType("from".to_owned()));
        }
        if !super::check_date_valid(&rental.to) {
            return Err(Error::IllegalValueForType("to".to_owned()));
        }
        if !self.has_book(rental.book) {
            return Err(Error::ConstraintError("book".to_owned()));
        }
        let rentee_found = match rental.rentee_type {
            EntityType::Member => self.has_member(rental.rentee),
            EntityType::Guild => self.has_guild(rental.rentee),
        };
        if !rentee_found {
            return Err(Error::ConstraintError("rentee".to_owned()));
        }
        Ok(())
    }

    /// Replaces the first stored rental carrying the given record's id; a
    /// record with no or an unknown id changes nothing. Dates and
    /// references are checked as on insertion.
    pub fn update_rental(&mut self, rental: &Rental) -> (r: Result<(), Error>)
        ensures
            !date_valid(rental.from) ==> (r matches Err(Error::IllegalValueForType(f)) && f@
                == "from"@) && final(self)@ == old(self)@,
            date_valid(rental.from) && !date_valid(rental.to) ==> (r matches Err(
                Error::IllegalValueForType(f),
            ) && f@ == "to"@) && final(self)@ == old(self)@,
            date_valid(rental.from) && date_valid(rental.to) && !book_with_id(
                old(self)@.books,
                rental.book,
            ) ==> (r matches Err(Error::ConstraintError(f)) && f@ == "book"@) && final(self)@
                == old(self)@,
            date_valid(rental.from) && date_valid(rental.to) && book_with_id(
                old(self)@.books,
                rental.book,
            ) && !rentee_exists(old(self)@, rental.rentee_type, rental.rentee) ==> (r matches Err(
                Error::ConstraintError(f),
            ) && f@ == "rentee"@) && final(self)@ == old(self)@,
            date_valid(rental.from) && date_valid(rental.to) && book_with_id(
                old(self)@.books,
                rental.book,
            ) && rentee_exists(old(self)@, rental.rentee_type, rental.rentee) ==> r is Ok && ({
                let rentals = old(self)@.rentals;
                if rental.id is Some && (exists|i: int|
                    0 <= i < rentals.len() && rentals[i].id == rental.id) {
                    exists|i: int|
                        0 <= i < rentals.len() && rentals[i].id == rental.id && (forall|j: int|
                            0 <= j < i ==> rentals[j].id != rental.id) && final(self)@ == (DatabaseV {
                            rentals: rentals.update(i, *rental),
                            ..old(self)@
                        })
                } else {
                    final(self)@ == old(self)@
                }
            }),
    {
        match self.check_rental(rental) {
            Err(e) => {
                return Err(e);
            },
            Ok(()) => (),
        }
        let id = match rental.id {
            None => {
                return Ok(());
            },
            Some(id) => id,
        };
        let ghost rentals = self@.rentals;
        let mut i: usize = 0;
        while i < self.rentals.len()
            invariant
                i <= self.rentals.len(),
                rentals == old(self)@.rentals,
                self@ == old(self)@,
                date_valid(rental.from),
                date_valid(rental.to),
                book_with_id(old(self)@.books, rental.book),
                rentee_exists(old(self)@, rental.rentee_type, rental.rentee),
                rental.id == Some(id),
                forall|j: int| 0 <= j < i ==> rentals[j].id != Some(id),
            decreases self.rentals.len() - i,
        {
            proof {
                assert(rentals[i as int] == self.rentals@[i as int]);
            }
            let found = match self.rentals[i].id {
                Some(rid) => rid == id,
                None => false,
            };
            if found {
                let ghost w = i as int;
                self.rentals.set(i, *rental);
                proof {
                    assert(rentals[w].id == rental.id);
                    assert(self@.rentals =~= rentals.update(w, *rental));
                    assert(self@ =~= (DatabaseV { rentals: rentals.update(w, *rental), ..old(self)@ }));
                    assert(exists|k: int|
                        0 <= k < rentals.len() && rentals[k].id == rental.id && (forall|j: int|
                            0 <= j < k ==> rentals[j].id != rental.id) && self@ == (DatabaseV {
                            rentals: rentals.update(k, *rental),
                            ..old(self)@
                        }));
                }
                return Ok(());
            }
            i = i + 1;
        }
        Ok(())
    }

    /// A copy of the first stored rental carrying the given id; `None` when
    /// the id is unknown.
    pub fn get_rental(&self, rental_id: RentalId) -> (r: Result<Option<Rental>, Error>)
        ensures
            ({
                let rentals = self@.rentals;
                match r {
                    Ok(Some(rec)) => exists|i: int|
                        0 <= i < rentals.len() && rentals[i].id == Some(rental_id) && rec
                            == rentals[i] && (forall|j: int|
                            0 <= j < i ==> rentals[j].id != Some(rental_id)),
                    Ok(None) => forall|i: int|
                        0 <= i < rentals.len() ==> rentals[i].id != Some(rental_id),
                    Err(_) => false,
                }
            }),
    {
        let mut i: usize = 0;
        while i < self.rentals.len()
            invariant
                i <= self.rentals.len(),
                forall|j: int| 0 <= j < i ==> self@.rentals[j].id != Some(rental_id),
            decreases self.rentals.len() - i,
        {
            proof {
                assert(self@.rentals[i as int] == self.rentals@[i as int]);
            }
            let found = match self.rentals[i].id {
                Some(rid) => rid == rental_id,
                None => false,
            };
            if found {
                let rec = self.rentals[i];
                proof {
                    let ghost w = i as int;
                    assert(self@.rentals[w].id == Some(rental_id));
                    assert(exists|k: int|
                        0 <= k < self@.rentals.len() && self@.rentals[k].id == Some(rental_id)
                            && rec == self@.rentals[k] && (forall|j: int|
                            0 <= j < k ==> self@.rentals[j].id != Some(rental_id)));
                }
                return Ok(Some(rec));
            }
            i = i + 1;
        }
        Ok(None)
    }

    /// Removes the first stored rental carrying the given id; the answer
    /// says whether anything was removed.
    pub fn delete_rental(&mut self, id: RentalId) -> (r: Result<bool, Error>)
        ensures
            ({
                let rentals = old(self)@.rentals;
                match r {
                    Ok(true) => exists|i: int|
                        0 <= i < rentals.len() && rentals[i].id == Some(id) && (forall|j: int|
                            0 <= j < i ==> rentals[j].id != Some(id)) && final(self)@ == (DatabaseV {
                            rentals: rentals.remove(i),
                            ..old(self)@
                        }),
                    Ok(false) => (forall|i: int|
                        0 <= i < rentals.len() ==> rentals[i].id != Some(id)) && final(self)@
                        == old(self)@,
                    Err(_) => false,
                }
            }),
    {
        let ghost rentals = self@.rentals;
        let mut i: usize = 0;
        while i < self.rentals.len()
            invariant
                i <= self.rentals.len(),
                rentals == old(self)@.rentals,
                self@ == old(self)@,
                forall|j: int| 0 <= j < i ==> rentals[j].id != Some(id),
            decreases self.rentals.len() - i,
        {
            proof {
                assert(rentals[i as int] == self.rentals@[i as int]);
            }
            let found = match self.rentals[i].id {
                Some(rid) => rid == id,
                None => false,
            };
            if found {
                let ghost w = i as int;
                self.rentals.remove(i);
                proof {
                    assert(rentals[w].id == Some(id));
                    assert(self@.rentals =~= rentals.remove(w));
                    assert(self@ =~= (DatabaseV { rentals: rentals.remove(w), ..old(self)@ }));
                    assert(exists|k: int|
                        0 <= k < rentals.len() && rentals[k].id == Some(id) && (forall|j: int|
                            0 <= j < k ==> rentals[j].id != Some(id)) && self@ == (DatabaseV {
                            rentals: rentals.remove(k),
                            ..old(self)@
                        }));
                }
                return Ok(true);
            }
            i = i + 1;
        }
        Ok(false)
    }

    /// A copy of the first stored rental lending the given book; `None`
    /// when no rental does.
    pub fn find_rental_for(&self, book: BookId) -> (r: Option<Rental>)
        ensures
            r == super::first_rental(self@.rentals, book),
    {
        let mut i: usize = 0;
        while i < self.rentals.len()
            invariant
                i <= self.rentals.len(),
                forall|j: int| 0 <= j < i ==> self@.rentals[j].book != book,
            decreases self.rentals.len() - i,
        {
            proof {
                assert(self@.rentals[i as int] == self.rentals@[i as int]);
            }
            if self.rentals[i].book == book {
                let rec = self.rentals[i];
                proof {
                    super::lemma_first_rental_prefix(self@.rentals, book, 0, i as int);
                }
                return Some(rec);
            }
            i = i + 1;
        }
        proof {
            super::lemma_first_rental_prefix(self@.rentals, book, 0, self@.rentals.len() as int);
        }
        None
    }

    /// Whether some stored rental lends the given book.
    pub fn has_rental_for(&self, book: BookId) -> (r: bool)
        ensures
            r == exists|k: int| 0 <= k < self@.rentals.len() && self@.rentals[k].book == book,
    {
        let mut i: usize = 0;
        while i < self.rentals.len()
            invariant
                i <= self.rentals.len(),
                forall|j: int| 0 <= j < i ==> self@.rentals[j].book != book,
            decreases self.rentals.len() - i,
        {
            proof {
                assert(self@.rentals[i as int] == self.rentals@[i as int]);
            }
            if self.rentals[i].book == book {
                return true;
            }
            i = i + 1;
        }
        false
    }

    /// A copy of every stored rental, in storage order.
    pub fn get_rentals(&self) -> (r: Result<Vec<Rental>, Error>)
        ensures
            r matches Ok(v) && v.deep_view() == self@.rentals,
    {
        let mut out: Vec<Rental> = Vec::new();
        let mut i: usize = 0;
        while i < self.rentals.len()
            invariant
                i <= self.rentals.len(),
                out@.len() == i,
                forall|j: int| 0 <= j < i ==> out@[j] == self@.rentals[j],
            decreases self.rentals.len() - i,
        {
            proof {
                assert(self@.rentals[i as int] == self.rentals@[i as int]);
            }
            out.push(self.rentals[i]);
            i = i + 1;
        }
        proof {
            assert(out.deep_view() =~= self@.rentals);
        }
        Ok(out)
    }
}

} // verus!
