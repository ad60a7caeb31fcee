//! Books: physical copies of a title, owned by a member or a guild.

use vstd::prelude::*;

use super::BookId;
use super::Database;
use super::DatabaseV;
use super::EntityId;
use super::EntityType;
use super::TitleId;
use super::book_with_id;
use super::check_varchar;
use super::guild_with_id;
use super::member_with_id;
use super::title_with_id;
use crate::error::Error;

verus! {

/// One book record.
#[derive(Debug, Clone, PartialEq, Eq)]
pub struct Book {
    pub id: Option<BookId>,
    pub title: TitleId,
    pub owner: EntityId,
    pub owner_type: EntityType,
    pub quality: String,
    pub external_inventory_id: u32,
}

/// Mathematical model of a [`Book`].
#[verifier::ext_equal]
pub ghost struct BookV {
    pub id: Option<BookId>,
    pub title: TitleId,
    pub owner: EntityId,
    pub owner_type: EntityType,
    pub quality: Seq<char>,
    pub external_inventory_id: u32,
}

impl View for Book {
    type V = BookV;

    open spec fn view(&self) -> BookV {
        BookV {
            id: self.id,
            title: self.title,
            owner: self.owner,
            owner_type: self.owner_type,
            quality: self.quality@,
            external_inventory_id: self.external_inventory_id,
        }
    }
}

impl DeepView for Book {
    type V = BookV;

    open spec fn deep_view(&self) -> BookV {
        self.view()
    }
}

impl Book {
    /// A record from its constituents; a record not yet stored has no id.
    pub fn new(
        id: Option<BookId>,
        title: TitleId,
        owner: EntityId,
        owner_type: EntityType,
        quality: String,
        external_inventory_id: u32,
    ) -> (r: Book)
        ensures
            r@ == (BookV { id, title, owner, owner_type, quality: quality@, external_inventory_id }),
    {
        Book { id, title, owner, owner_type, quality, external_inventory_id }
    }

    /// An explicit copy whose contract says the copy models the original.
    pub fn duplicate(&self) -> (r: Book)
        ensures
            r@ == self@,
    {
        Book {
            id: self.id,
            title: self.title,
            owner: self.owner,
            owner_type: self.owner_type,
            quality: self.quality.clone(),
            external_inventory_id: self.external_inventory_id,
        }
    }
}

/// Whether the named owner exists among members or guilds, as the owner
/// type directs.
pub open spec fn owner_exists(dbv: DatabaseV, owner_type: EntityType, owner: EntityId) -> bool {
    match owner_type {
        EntityType::Member => member_with_id(dbv.members, owner),
        EntityType::Guild => guild_with_id(dbv.guilds, owner),
    }
}

impl Database {
    /// Stores a new book under a fresh id and returns the id. A quality
    /// text wider than the column is refused with `DataTooLong`; an unknown
    /// title or owner is refused with `ConstraintError`.
    pub fn insert_book(&mut self, book: &Book) -> (r: Result<BookId, Error>)
        ensures
            !super::varchar_ok(book@.quality) ==> (r matches Err(Error::DataTooLong(f)) && f@
                == "quality"@) && final(self)@ == old(self)@,
            super::varchar_ok(book@.quality) && !title_with_id(old(self)@.titles, book@.title) ==> (
            r matches Err(Error::ConstraintError(f)) && f@ == "title"@) && final(self)@ == old(
                self,
            )@,
            super::varchar_ok(book@.quality) && title_with_id(old(self)@.titles, book@.title)
                && !owner_exists(old(self)@, book@.owner_type, book@.owner) ==> (r matches Err(
                Error::ConstraintError(f),
            ) && f@ == "owner"@) && final(self)@ == old(self)@,
            super::varchar_ok(book@.quality) && title_with_id(old(self)@.titles, book@.title)
                && owner_exists(old(self)@, book@.owner_type, book@.owner) && old(self)@.next_id
                == u64::MAX ==> (r matches Err(e) && e == Error::IllegalState) && final(self)@
                == old(self)@,
            super::varchar_ok(book@.quality) && title_with_id(old(self)@.titles, book@.title)
                && owner_exists(old(self)@, book@.owner_type, book@.owner) && old(self)@.next_id
                < u64::MAX ==> ({
                &&& r == Ok::<BookId, Error>(old(self)@.next_id)
                &&& final(self)@ == (DatabaseV {
                    books: old(self)@.books.push(BookV { id: Some(old(self)@.next_id), ..book@ }),
                    next_id: (old(self)@.next_id + 1) as u64,
                    ..old(self)@
                })
            }),
    {
        if !check_varchar(book.quality.as_str()) {
            return Err(Error::DataTooLong("quality".to_owned()));
        }
        if !self.has_title(book.title) {
            return Err(Error::ConstraintError("title".to_owned()));
        }
        let owner_found = match book.owner_type {
            EntityType::Member => self.has_member(book.owner),
            EntityType::Guild => self.has_guild(book.owner),
        };
        if !owner_found {
            return Err(Error::ConstraintError("owner".to_owned()));
        }
        let id = match self.take_id() {
            Err(e) => {
                return Err(e);
            },
            Ok(id) => id,
        };
        let mut stored = book.duplicate();
        stored.id = Some(id);
        proof {
            assert(stored@ =~= (BookV { id: Some(id), ..book@ }));
        }
        self.books.push(stored);
        proof {
            assert(self@.books =~= old(self)@.books.push(BookV { id: Some(id), ..book@ }));
            assert(self@ =~= (DatabaseV {
                books: old(self)@.books.push(BookV { id: Some(id), ..book@ }),
                next_id: (old(self)@.next_id + 1) as u64,
                ..old(self)@
            }));
        }
        Ok(id)
    }

    /// Whether any stored title carries the given id.
    pub fn has_title(&self, id: TitleId) -> (r: bool)
        ensures
            r == title_with_id(self@.titles, id),
    {
        let mut i: usize = 0;
        while i < self.titles.len()
            invariant
                i <= self.titles.len(),
                forall|j: int| 0 <= j < i ==> self@.titles[j].id != Some(id),
            decreases self.titles.len() - i,
        {
            proof {
                assert(self@.titles[i as int] == self.titles@[i as int]@);
            }
            let found = match self.titles[i].id {
                Some(tid) => tid == id,
                None => false,
            };
            if found {
                return true;
            }
            i = i + 1;
        }
        false
    }

    /// Whether any stored book carries the given id.
    pub fn has_book(&self, id: BookId) -> (r: bool)
        ensures
            r == book_with_id(self@.books, id),
    {
        let mut i: usize = 0;
        while i < self.books.len()
            invariant
                i <= self.books.len(),
                forall|j: int| 0 <= j < i ==> self@.books[j].id != Some(id),
            decreases self.books.len() - i,
        {
            proof {
                assert(self@.books[i as int] == self.books@[i as int]@);
            }
            let found = match self.books[i].id {
                Some(bid) => bid == id,
                None => false,
            };
            if found {
                return true;
            }
            i = i + 1;
        }
        false
    }

    /// A copy of every stored book, in storage order.
    pub fn get_books_list(&self) -> (r: Result<Vec<Book>, Error>)
        ensures
            r matches Ok(v) && v.deep_view() == self@.books,
    {
        let mut out: Vec<Book> = Vec::new();
        let mut i: usize = 0;
        while i < self.books.len()
            invariant
                i <= self.books.len(),
                out@.len() == i,
                forall|j: int| 0 <= j < i ==> out@[j]@ == self@.books[j],
            decreases self.books.len() - i,
        {
            proof {
                assert(self@.books[i as int] == self.books@[i as int]@);
            }
            out.push(self.books[i].duplicate());
            i = i + 1;
        }
        proof {
            assert forall|j: int| 0 <= j < self@.books.len() implies out.deep_view()[j]
                == self@.books[j] by {
                assert(out@[j]@ == self@.books[j]);
            }
            assert(out.deep_view() =~= self@.books);
        }
        Ok(out)
    }

    /// How many stored books belong to the given title.
    pub fn count_stock(&self, title: TitleId) -> (r: usize)
        ensures
            r as int == super::stock_of(self@.books, title),
    {
        let mut count: usize = 0;
        let mut i: usize = 0;
        while i < self.books.len()
            invariant
                i <= self.books.len(),
                count <= i,
                count + super::stock_from(self@.books, title, i as int) == super::stock_of(
                    self@.books,
                    title,
                ),
            decreases self.books.len() - i,
        {
            proof {
                assert(self@.books[i as int] == self.books@[i as int]@);
                assert(super::stock_from(self@.books, title, i as int) == (if self@.books[i as int].title
                    == title {
                    1int
                } else {
                    0int
                }) + super::stock_from(self@.books, title, i + 1));
            }
            if self.books[i].title == title {
                count = count + 1;
            }
            i = i + 1;
        }
        proof {
            assert(super::stock_from(self@.books, title, self@.books.len() as int) == 0);
        }
        count
    }

    /// How many stored books belong to the given title and stand in no
    /// rental.
    pub fn count_available(&self, title: TitleId) -> (r: usize)
        ensures
            r as int == super::avail_of(self@.books, self@.rentals, title),
    {
        let mut count: usize = 0;
        let mut i: usize = 0;
        while i < self.books.len()
            invariant
                i <= self.books.len(),
                count <= i,
                count + super::avail_from(self@.books, self@.rentals, title, i as int)
                    == super::avail_of(self@.books, self@.rentals, title),
            decreases self.books.len() - i,
        {
            proof {
                assert(self@.books[i as int] == self.books@[i as int]@);
                assert(super::avail_from(self@.books, self@.rentals, title, i as int) == (if (
                self@.books[i as int].title == title && !super::book_rented(
                    self@.rentals,
                    self@.books[i as int].id,
                )) {
                    1int
                } else {
                    0int
                }) + super::avail_from(self@.books, self@.rentals, title, i + 1));
            }
            let counts = if self.books[i].title == title {
                let rented = match self.books[i].id {
                    None => false,
                    Some(bid) => self.has_rental_for(bid),
                };
                !rented
            } else {
                false
            };
            if counts {
                count = count + 1;
            }
            i = i + 1;
        }
        proof {
            assert(super::avail_from(self@.books, self@.rentals, title, self@.books.len() as int)
                == 0);
        }
        count
    }

    /// Removes the first stored book carrying the given id; the answer says
    /// whether anything was removed.
    pub fn delete_book(&mut self, id: BookId) -> (r: Result<bool, Error>)
        ensures
            ({
                let books = old(self)@.books;
                match r {
                    Ok(true) => exists|i: int|
                        0 <= i < books.len() && books[i].id == Some(id) && (forall|j: int|
                            0 <= j < i ==> books[j].id != Some(id)) && final(self)@ == (DatabaseV {
                            books: books.remove(i),
                            ..old(self)@
                        }),
                    Ok(false) => !book_with_id(books, id) && final(self)@ == old(self)@,
                    Err(_) => false,
                }
            }),
    {
        let ghost books = self@.books;
        let mut i: usize = 0;
        while i < self.books.len()
            invariant
                i <= self.books.len(),
                books == old(self)@.books,
                self@ == old(self)@,
                forall|j: int| 0 <= j < i ==> books[j].id != Some(id),
            decreases self.books.len() - i,
        {
            proof {
                assert(books[i as int] == self.books@[i as int]@);
            }
            let found = match self.books[i].id {
                Some(bid) => bid == id,
                None => false,
            };
            if found {
                let ghost w = i as int;
                self.books.remove(i);
                proof {
                    assert(books[w].id == Some(id));
                    assert(self@.books =~= books.remove(w));
                    assert(self@ =~= (DatabaseV { books: books.remove(w), ..old(self)@ }));
                    assert(exists|k: int|
                        0 <= k < books.len() && books[k].id == Some(id) && (forall|j: int|
                            0 <= j < k ==> books[j].id != Some(id)) && self@ == (DatabaseV {
                            books: books.remove(k),
                            ..old(self)@
                        }));
                }
                return Ok(true);
            }
            i = i + 1;
        }
        Ok(false)
    }
}

} // verus!
