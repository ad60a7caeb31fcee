//! Titles: one published game book, belonging to a game system.

use vstd::prelude::*;

use super::Database;
use super::DatabaseV;
use crate::database::rpgsystem::RpgSystemId;
use super::TitleId;
use super::check_varchar;
use super::system_with_id;
use super::title_with_id;
use crate::error::Error;

verus! {

/// One title record.
#[derive(Debug, Clone, PartialEq, Eq)]
pub struct Title {
    pub id: Option<TitleId>,
    pub name: String,
    pub system: RpgSystemId,
    pub language: String,
    pub publisher: String,
    pub year: i32,
    pub coverimage: Option<String>,
}

/// Mathematical model of a [`Title`].
#[verifier::ext_equal]
pub ghost struct TitleV {
    pub id: Option<TitleId>,
    pub name: Seq<char>,
    pub system: RpgSystemId,
    pub language: Seq<char>,
    pub publisher: Seq<char>,
    pub year: i32,
    pub coverimage: Option<Seq<char>>,
}

impl View for Title {
    type V = TitleV;

    open spec fn view(&self) -> TitleV {
        TitleV {
            id: self.id,
            name: self.name@,
            system: self.system,
            language: self.language@,
            publisher: self.publisher@,
            year: self.year,
            coverimage: self.coverimage.deep_view(),
        }
    }
}

impl DeepView for Title {
    type V = TitleV;

    open spec fn deep_view(&self) -> TitleV {
        self.view()
    }
}

/// Copies an optional string, model for model.
fn clone_opt_string(v: &Option<String>) -> (r: Option<String>)
    ensures
        r.deep_view() == v.deep_view(),
{
    match v {
        None => None,
        Some(s) => Some(s.clone()),
    }
}

impl Title {
    /// A record from its constituents; a record not yet stored has no id.
    pub fn new(
        id: Option<TitleId>,
        name: String,
        system: RpgSystemId,
        language: String,
        publisher: String,
        year: i32,
        coverimage: Option<String>,
    ) -> (r: Title)
        ensures
            r@ == (TitleV {
                id,
                name: name@,
                system,
                language: language@,
                publisher: publisher@,
                year,
                coverimage: coverimage.deep_view(),
            }),
    {
        Title { id, name, system, language, publisher, year, coverimage }
    }

    /// An explicit copy whose contract says the copy models the original.
    pub fn duplicate(&self) -> (r: Title)
        ensures
            r@ == self@,
    {
        let r = Title {
            id: self.id,
            name: self.name.clone(),
            system: self.system,
            language: self.language.clone(),
            publisher: self.publisher.clone(),
            year: self.year,
            coverimage: clone_opt_string(&self.coverimage),
        };
        proof {
            assert(r@ =~= self@);
        }
        r
    }
}

/// Copies a vector of title records, model for model.
pub(crate) fn clone_titles(v: &Vec<Title>) -> (r: Vec<Title>)
    ensures
        r.deep_view() == v.deep_view(),
{
    let mut r: Vec<Title> = Vec::new();
    let mut i: usize = 0;
    while i < v.len()
        invariant
            i <= v.len(),
            r@.len() == i,
            forall|j: int| 0 <= j < i ==> r@[j]@ == v@[j]@,
        decreases v.len() - i,
    {
        r.push(v[i].duplicate());
        i = i + 1;
    }
    proof {
        assert forall|j: int| 0 <= j < v@.len() implies r.deep_view()[j] == v.deep_view()[j] by {
            assert(r@[j]@ == v@[j]@);
        }
        assert(r.deep_view() =~= v.deep_view());
    }
    r
}

impl Database {
    /// Stores a new title under a fresh id and returns the id. A name wider
    /// than the column is refused with `DataTooLong`; an unknown system id
    /// is refused with `ConstraintError`.
    pub fn insert_title(&mut self, title: &Title) -> (r: Result<TitleId, Error>)
        ensures
            !super::varchar_ok(title@.name) ==> (r matches Err(Error::DataTooLong(f)) && f@
                == "name"@) && final(self)@ == old(self)@,
            super::varchar_ok(title@.name) && !system_with_id(old(self)@.rpg_systems, title@.system)
                ==> (r matches Err(Error::ConstraintError(f)) && f@ == "system"@) && final(self)@
                == old(self)@,
            super::varchar_ok(title@.name) && system_with_id(old(self)@.rpg_systems, title@.system)
                && old(self)@.next_id == u64::MAX ==> (r matches Err(e) && e == Error::IllegalState)
                && final(self)@ == old(self)@,
            super::varchar_ok(title@.name) && system_with_id(old(self)@.rpg_systems, title@.system)
                && old(self)@.next_id < u64::MAX ==> ({
                &&& r == Ok::<TitleId, Error>(old(self)@.next_id)
                &&& final(self)@ == (DatabaseV {
                    titles: old(self)@.titles.push(
                        TitleV { id: Some(old(self)@.next_id), ..title@ },
                    ),
                    next_id: (old(self)@.next_id + 1) as u64,
                    ..old(self)@
                })
            }),
    {
        if !check_varchar(title.name.as_str()) {
            return Err(Error::DataTooLong("name".to_owned()));
        }
        if !self.has_rpg_system(title.system) {
            return Err(Error::ConstraintError("system".to_owned()));
        }
        let id = match self.take_id() {
            Err(e) => {
                return Err(e);
            },
            Ok(id) => id,
        };
        let mut stored = title.duplicate();
        stored.id = Some(id);
        proof {
            assert(stored@ =~= (TitleV { id: Some(id), ..title@ }));
        }
        self.titles.push(stored);
        proof {
            assert(self@.titles =~= old(self)@.titles.push(TitleV { id: Some(id), ..title@ }));
            assert(self@ =~= (DatabaseV {
                titles: old(self)@.titles.push(TitleV { id: Some(id), ..title@ }),
                next_id: (old(self)@.next_id + 1) as u64,
                ..old(self)@
            }));
        }
        Ok(id)
    }

    /// Whether any stored system carries the given id.
    pub fn has_rpg_system(&self, id: RpgSystemId) -> (r: bool)
        ensures
            r == system_with_id(self@.rpg_systems, id),
    {
        let mut i: usize = 0;
        while i < self.rpg_systems.len()
            invariant
                i <= self.rpg_systems.len(),
                forall|j: int| 0 <= j < i ==> self@.rpg_systems[j].id != Some(id),
            decreases self.rpg_systems.len() - i,
        {
            proof {
                assert(self@.rpg_systems[i as int] == self.rpg_systems@[i as int]@);
            }
            let found = match self.rpg_systems[i].id {
                Some(sid) => sid == id,
                None => false,
            };
            if found {
                return true;
            }
            i = i + 1;
        }
        false
    }

    /// Replaces the first stored title carrying the given record's id; a
    /// record with no or an unknown id changes nothing. A name wider than
    /// the column is refused with `DataTooLong`.
    pub fn update_title(&mut self, title: &Title) -> (r: Result<(), Error>)
        ensures
            !super::varchar_ok(title@.name) ==> (r matches Err(Error::DataTooLong(f)) && f@
                == "name"@) && final(self)@ == old(self)@,
            super::varchar_ok(title@.name) ==> r is Ok && ({
                let titles = old(self)@.titles;
                if title@.id is Some && title_with_id(titles, title@.id->0) {
                    exists|i: int|
                        0 <= i < titles.len() && titles[i].id == title@.id && (forall|j: int|
                            0 <= j < i ==> titles[j].id != title@.id) && final(self)@ == (DatabaseV {
                            titles: titles.update(i, title@),
                            ..old(self)@
                        })
                } else {
                    final(self)@ == old(self)@
                }
            }),
    {
        if !check_varchar(title.name.as_str()) {
            return Err(Error::DataTooLong("name".to_owned()));
        }
        let id = match title.id {
            None => {
                return Ok(());
            },
            Some(id) => id,
        };
        let ghost titles = self@.titles;
        let mut i: usize = 0;
        while i < self.titles.len()
            invariant
                i <= self.titles.len(),
                titles == old(self)@.titles,
                self@ == old(self)@,
                super::varchar_ok(title@.name),
                title@.id == Some(id),
                forall|j: int| 0 <= j < i ==> titles[j].id != Some(id),
            decreases self.titles.len() - i,
        {
            proof {
                assert(titles[i as int] == self.titles@[i as int]@);
            }
            let found = match self.titles[i].id {
                Some(tid) => tid == id,
                None => false,
            };
            if found {
                let ghost w = i as int;
                self.titles.set(i, title.duplicate());
                proof {
                    assert(titles[w].id == title@.id);
                    assert(title_with_id(titles, id));
                    assert(self@.titles =~= titles.update(w, title@));
                    assert(self@ =~= (DatabaseV { titles: titles.update(w, title@), ..old(self)@ }));
                    assert(exists|k: int|
                        0 <= k < titles.len() && titles[k].id == title@.id && (forall|j: int|
                            0 <= j < k ==> titles[j].id != title@.id) && self@ == (DatabaseV {
                            titles: titles.update(k, title@),
                            ..old(self)@
                        }));
                }
                return Ok(());
            }
            i = i + 1;
        }
        proof {
            assert(!title_with_id(titles, id));
        }
        Ok(())
    }

    /// Removes the first stored title carrying the given id; the answer
    /// says whether anything was removed.
    pub fn delete_title(&mut self, id: TitleId) -> (r: Result<bool, Error>)
        ensures
            ({
                let titles = old(self)@.titles;
                match r {
                    Ok(true) => exists|i: int|
                        0 <= i < titles.len() && titles[i].id == Some(id) && (forall|j: int|
                            0 <= j < i ==> titles[j].id != Some(id)) && final(self)@ == (DatabaseV {
                            titles: titles.remove(i),
                            ..old(self)@
                        }),
                    Ok(false) => !title_with_id(titles, id) && final(self)@ == old(self)@,
                    Err(_) => false,
                }
            }),
    {
        let ghost titles = self@.titles;
        let mut i: usize = 0;
        while i < self.titles.len()
            invariant
                i <= self.titles.len(),
                titles == old(self)@.titles,
                self@ == old(self)@,
                forall|j: int| 0 <= j < i ==> titles[j].id != Some(id),
            decreases self.titles.len() - i,
        {
            proof {
                assert(titles[i as int] == self.titles@[i as int]@);
            }
            let found = match self.titles[i].id {
                Some(tid) => tid == id,
                None => false,
            };
            if found {
                let ghost w = i as int;
                self.titles.remove(i);
                proof {
                    assert(titles[w].id == Some(id));
                    assert(self@.titles =~= titles.remove(w));
                    assert(self@ =~= (DatabaseV { titles: titles.remove(w), ..old(self)@ }));
                    assert(exists|k: int|
                        0 <= k < titles.len() && titles[k].id == Some(id) && (forall|j: int|
                            0 <= j < k ==> titles[j].id != Some(id)) && self@ == (DatabaseV {
                            titles: titles.remove(k),
                            ..old(self)@
                        }));
                }
                return Ok(true);
            }
            i = i + 1;
        }
        Ok(false)
    }

    /// A copy of every stored title, in storage order.
    pub fn get_titles_list(&self) -> (r: Result<Vec<Title>, Error>)
        ensures
            r matches Ok(v) && v.deep_view() == self@.titles,
    {
        Ok(clone_titles(&self.titles))
    }

    /// A copy of the first stored title carrying the given id; `None` when
    /// the id is unknown.
    pub fn find_title(&self, id: TitleId) -> (r: Option<Title>)
        ensures
            r.deep_view() == super::first_title(self@.titles, id),
    {
        let mut i: usize = 0;
        while i < self.titles.len()
            invariant
                i <= self.titles.len(),
                forall|j: int| 0 <= j < i ==> self@.titles[j].id != Some(id),
            decreases self.titles.len() - i,
        {
            proof {
                assert(self@.titles[i as int] == self.titles@[i as int]@);
            }
            let found = match self.titles[i].id {
                Some(tid) => tid == id,
                None => false,
            };
            if found {
                let t = self.titles[i].duplicate();
                proof {
                    super::lemma_first_title_prefix(self@.titles, id, 0, i as int);
                }
                return Some(t);
            }
            i = i + 1;
        }
        proof {
            super::lemma_first_title_prefix(self@.titles, id, 0, self@.titles.len() as int);
        }
        None
    }

    /// A copy of every stored title belonging to the given system, in
    /// storage order.
    pub fn get_titles_by_rpg_system(&self, system_id: RpgSystemId) -> (r: Result<Vec<Title>, Error>)
        ensures
            r matches Ok(v) && v.deep_view() == titles_of(self@.titles, system_id),
    {
        let mut out: Vec<Title> = Vec::new();
        let mut i: usize = 0;
        while i < self.titles.len()
            invariant
                i <= self.titles.len(),
                out.deep_view() + titles_of_from(self@.titles, system_id, i as int) == titles_of(
                    self@.titles,
                    system_id,
                ),
            decreases self.titles.len() - i,
        {
            proof {
                assert(self@.titles[i as int] == self.titles@[i as int]@);
                assert(titles_of_from(self@.titles, system_id, i as int) == (if self@.titles[i as int].system
                    == system_id {
                    seq![self@.titles[i as int]]
                } else {
                    Seq::<TitleV>::empty()
                }) + titles_of_from(self@.titles, system_id, i + 1));
            }
            if self.titles[i].system == system_id {
                let ghost before = out.deep_view();
                out.push(self.titles[i].duplicate());
                proof {
                    assert(out.deep_view() =~= before.push(self@.titles[i as int]));
                    assert(out.deep_view() + titles_of_from(self@.titles, system_id, i + 1) =~= (
                    before + titles_of_from(self@.titles, system_id, i as int)));
                }
            } else {
                proof {
                    assert(out.deep_view() + titles_of_from(self@.titles, system_id, i + 1)
                        =~= (out.deep_view() + titles_of_from(self@.titles, system_id, i as int)));
                }
            }
            i = i + 1;
        }
        proof {
            assert(titles_of_from(self@.titles, system_id, self@.titles.len() as int)
                =~= Seq::<TitleV>::empty());
            assert(out.deep_view() =~= titles_of(self@.titles, system_id));
        }
        Ok(out)
    }
}

/// The stored titles at or after `from` that belong to the given system.
pub open spec fn titles_of_from(titles: Seq<TitleV>, system_id: RpgSystemId, from: int) -> Seq<
    TitleV,
>
    decreases titles.len() - from when 0 <= from <= titles.len()
{
    if from >= titles.len() {
        Seq::empty()
    } else {
        (if titles[from].system == system_id {
            seq![titles[from]]
        } else {
            Seq::empty()
        }) + titles_of_from(titles, system_id, from + 1)
    }
}

/// The stored titles that belong to the given system, in storage order.
pub open spec fn titles_of(titles: Seq<TitleV>, system_id: RpgSystemId) -> Seq<TitleV> {
    titles_of_from(titles, system_id, 0)
}

} // verus!
