//! Game systems: the root records titles hang off.

use vstd::prelude::*;

use super::Database;
use super::DatabaseV;
use super::Id;
use super::check_varchar;
use super::system_with_id;
use crate::error::Error;

verus! {

pub type RpgSystemId = Id;

/// One game system record.
#[derive(Debug, Clone, PartialEq, Eq)]
pub struct RpgSystem {
    pub id: Option<RpgSystemId>,
    pub name: String,
}

/// Mathematical model of a [`RpgSystem`].
#[verifier::ext_equal]
pub ghost struct RpgSystemV {
    pub id: Option<RpgSystemId>,
    pub name: Seq<char>,
}

impl View for RpgSystem {
    type V = RpgSystemV;

    open spec fn view(&self) -> RpgSystemV {
        RpgSystemV { id: self.id, name: self.name@ }
    }
}

impl DeepView for RpgSystem {
    type V = RpgSystemV;

    open spec fn deep_view(&self) -> RpgSystemV {
        self.view()
    }
}

impl RpgSystem {
    /// A record from its constituents; a record not yet stored has no id.
    pub fn new(id: Option<RpgSystemId>, name: String) -> (r: RpgSystem)
        ensures
            r@ == (RpgSystemV { id, name: name@ }),
    {
        RpgSystem { id, name }
    }

    /// An explicit copy whose contract says the copy models the original.
    pub fn duplicate(&self) -> (r: RpgSystem)
        ensures
            r@ == self@,
    {
        RpgSystem { id: self.id, name: self.name.clone() }
    }
}

/// Copies a vector of system records, model for model.
fn clone_systems(v: &Vec<RpgSystem>) -> (r: Vec<RpgSystem>)
    ensures
        r.deep_view() == v.deep_view(),
{
    let mut r: Vec<RpgSystem> = Vec::new();
    let mut i: usize = 0;
    while i < v.len()
        invariant
            i <= v.len(),
            r@.len() == i,
            forall|j: int| 0 <= j < i ==> r@[j]@ == v@[j]@,
        decreases v.len() - i,
    {
        r.push(v[i].duplicate());
        i = i + 1;
    }
    proof {
        assert forall|j: int| 0 <= j < v@.len() implies r.deep_view()[j] == v.deep_view()[j] by {
            assert(r@[j]@ == v@[j]@);
        }
        assert(r.deep_view() =~= v.deep_view());
    }
    r
}

impl Database {
    /// Stores a new game system under a fresh id and returns the stored
    /// record. A name wider than the column is refused with `DataTooLong`.
    pub fn insert_rpg_system(&mut self, name: String) -> (r: Result<RpgSystem, Error>)
        ensures
            !super::varchar_ok(name@) ==> (r matches Err(Error::DataTooLong(f)) && f@ == "name"@)
                && final(self)@ == old(self)@,
            super::varchar_ok(name@) && old(self)@.next_id == u64::MAX ==> (r matches Err(e) && e
                == Error::IllegalState) && final(self)@ == old(self)@,
            super::varchar_ok(name@) && old(self)@.next_id < u64::MAX ==> ({
                &&& r matches Ok(sys) && sys@ == (RpgSystemV {
                    id: Some(old(self)@.next_id),
                    name: name@,
                })
                &&& final(self)@ == (DatabaseV {
                    rpg_systems: old(self)@.rpg_systems.push(
                        RpgSystemV { id: Some(old(self)@.next_id), name: name@ },
                    ),
                    next_id: (old(self)@.next_id + 1) as u64,
                    ..old(self)@
                })
            }),
    {
        if !check_varchar(name.as_str()) {
            return Err(Error::DataTooLong("name".to_owned()));
        }
        let id = match self.take_id() {
            Err(e) => {
                return Err(e);
            },
            Ok(id) => id,
        };
        let sys = RpgSystem { id: Some(id), name };
        let stored = sys.duplicate();
        self.rpg_systems.push(sys);
        proof {
            assert(self@.rpg_systems =~= old(self)@.rpg_systems.push(stored@));
            assert(self@ =~= (DatabaseV {
                rpg_systems: old(self)@.rpg_systems.push(stored@),
                next_id: (old(self)@.next_id + 1) as u64,
                ..old(self)@
            }));
        }
        Ok(stored)
    }

    /// Replaces the first stored system carrying the given record's id; a
    /// record with no or an unknown id changes nothing. A name wider than
    /// the column is refused with `DataTooLong`.
    pub fn update_rpg_system(&mut self, rpgsystem: &RpgSystem) -> (r: Result<(), Error>)
        ensures
            !super::varchar_ok(rpgsystem@.name) ==> (r matches Err(Error::DataTooLong(f)) && f@
                == "name"@) && final(self)@ == old(self)@,
            super::varchar_ok(rpgsystem@.name) ==> r is Ok && ({
                let systems = old(self)@.rpg_systems;
                if rpgsystem@.id is Some && system_with_id(systems, rpgsystem@.id->0) {
                    exists|i: int|
                        0 <= i < systems.len() && systems[i].id == rpgsystem@.id && (forall|j: int|
                            0 <= j < i ==> systems[j].id != rpgsystem@.id) && final(self)@
                            == (DatabaseV { rpg_systems: systems.update(i, rpgsystem@), ..old(self)@ })
                } else {
                    final(self)@ == old(self)@
                }
            }),
    {
        if !check_varchar(rpgsystem.name.as_str()) {
            return Err(Error::DataTooLong("name".to_owned()));
        }
        let id = match rpgsystem.id {
            None => {
                return Ok(());
            },
            Some(id) => id,
        };
        let ghost systems = self@.rpg_systems;
        let mut i: usize = 0;
        while i < self.rpg_systems.len()
            invariant
                i <= self.rpg_systems.len(),
                systems == old(self)@.rpg_systems,
                self@ == old(self)@,
                super::varchar_ok(rpgsystem@.name),
                rpgsystem@.id == Some(id),
                forall|j: int| 0 <= j < i ==> systems[j].id != Some(id),
            decreases self.rpg_systems.len() - i,
        {
            proof {
                assert(systems[i as int] == self.rpg_systems@[i as int]@);
            }
            let found = match self.rpg_systems[i].id {
                Some(sid) => sid == id,
                None => false,
            };
            if found {
                let ghost w = i as int;
                self.rpg_systems.set(i, rpgsystem.duplicate());
                proof {
                    assert(systems[w].id == rpgsystem@.id);
                    assert(system_with_id(systems, id));
                    assert(self@.rpg_systems =~= systems.update(w, rpgsystem@));
                    assert(self@ =~= (DatabaseV {
                        rpg_systems: systems.update(w, rpgsystem@),
                        ..old(self)@
                    }));
                    assert(exists|k: int|
                        0 <= k < systems.len() && systems[k].id == rpgsystem@.id && (forall|j: int|
                            0 <= j < k ==> systems[j].id != rpgsystem@.id) && self@ == (DatabaseV {
                            rpg_systems: systems.update(k, rpgsystem@),
                            ..old(self)@
                        }));
                }
                return Ok(());
            }
            i = i + 1;
        }
        proof {
            assert(!system_with_id(systems, id));
        }
        Ok(())
    }

    /// A copy of the first stored system carrying the given id; `None` when
    /// the id is unknown.
    pub fn get_rpg_system(&self, rpg_system_id: RpgSystemId) -> (r: Result<
        Option<RpgSystem>,
        Error,
    >)
        ensures
            r matches Ok(o) && o.deep_view() == super::first_system(
                self@.rpg_systems,
                rpg_system_id,
            ),
    {
        let mut i: usize = 0;
        while i < self.rpg_systems.len()
            invariant
                i <= self.rpg_systems.len(),
                forall|j: int| 0 <= j < i ==> self@.rpg_systems[j].id != Some(rpg_system_id),
            decreases self.rpg_systems.len() - i,
        {
            proof {
                assert(self@.rpg_systems[i as int] == self.rpg_systems@[i as int]@);
            }
            let found = match self.rpg_systems[i].id {
                Some(sid) => sid == rpg_system_id,
                None => false,
            };
            if found {
                let sys = self.rpg_systems[i].duplicate();
                proof {
                    super::lemma_first_system_prefix(self@.rpg_systems, rpg_system_id, 0, i as int);
                }
                return Ok(Some(sys));
            }
            i = i + 1;
        }
        proof {
            super::lemma_first_system_prefix(
                self@.rpg_systems,
                rpg_system_id,
                0,
                self@.rpg_systems.len() as int,
            );
        }
        Ok(None)
    }

    /// A copy of every stored system, in storage order.
    pub fn get_rpg_systems(&self) -> (r: Result<Vec<RpgSystem>, Error>)
        ensures
            r matches Ok(v) && v.deep_view() == self@.rpg_systems,
    {
        Ok(clone_systems(&self.rpg_systems))
    }

    /// Removes the first stored system carrying the given id; the answer
    /// says whether anything was removed.
    pub fn delete_rpg_system(&mut self, id: RpgSystemId) -> (r: Result<bool, Error>)
        ensures
            ({
                let systems = old(self)@.rpg_systems;
                match r {
                    Ok(true) => exists|i: int|
                        0 <= i < systems.len() && systems[i].id == Some(id) && (forall|j: int|
                            0 <= j < i ==> systems[j].id != Some(id)) && final(self)@ == (DatabaseV {
                            rpg_systems: systems.remove(i),
                            ..old(self)@
                        }),
                    Ok(false) => !system_with_id(systems, id) && final(self)@ == old(self)@,
                    Err(_) => false,
                }
            }),
    {
        let ghost systems = self@.rpg_systems;
        let mut i: usize = 0;
        while i < self.rpg_systems.len()
            invariant
                i <= self.rpg_systems.len(),
                systems == old(self)@.rpg_systems,
                self@ == old(self)@,
                forall|j: int| 0 <= j < i ==> systems[j].id != Some(id),
            decreases self.rpg_systems.len() - i,
        {
            proof {
                assert(systems[i as int] == self.rpg_systems@[i as int]@);
            }
            let found = match self.rpg_systems[i].id {
                Some(sid) => sid == id,
                None => false,
            };
            if found {
                let ghost w = i as int;
                self.rpg_systems.remove(i);
                proof {
                    assert(systems[w].id == Some(id));
                    assert(self@.rpg_systems =~= systems.remove(w));
                    assert(self@ =~= (DatabaseV { rpg_systems: systems.remove(w), ..old(self)@ }));
                    assert(exists|k: int|
                        0 <= k < systems.len() && systems[k].id == Some(id) && (forall|j: int|
                            0 <= j < k ==> systems[j].id != Some(id)) && self@ == (DatabaseV {
                            rpg_systems: systems.remove(k),
                            ..old(self)@
                        }));
                }
                return Ok(true);
            }
            i = i + 1;
        }
        Ok(false)
    }
}

} // verus!
