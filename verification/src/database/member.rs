//! Members: individuals known to the store, keyed to the identity provider
//! by their external id.

use vstd::prelude::*;

use super::Database;
use super::DatabaseV;
use super::EntityId;
use super::check_varchar;
use super::member_with_id;
use crate::error::Error;

verus! {

pub type MemberId = EntityId;

/// One member record.
#[derive(Debug, Clone, PartialEq, Eq)]
pub struct Member {
    pub id: Option<MemberId>,
    pub external_id: String,
}

/// Mathematical model of a [`Member`].
#[verifier::ext_equal]
pub ghost struct MemberV {
    pub id: Option<MemberId>,
    pub external_id: Seq<char>,
}

impl View for Member {
    type V = MemberV;

    open spec fn view(&self) -> MemberV {
        MemberV { id: self.id, external_id: self.external_id@ }
    }
}

impl DeepView for Member {
    type V = MemberV;

    open spec fn deep_view(&self) -> MemberV {
        self.view()
    }
}

impl Member {
    /// A record from its constituents; a record not yet stored has no id.
    pub fn new(id: Option<MemberId>, external_id: String) -> (r: Member)
        ensures
            r@ == (MemberV { id, external_id: external_id@ }),
    {
        Member { id, external_id }
    }

    /// An explicit copy whose contract says the copy models the original.
    pub fn duplicate(&self) -> (r: Member)
        ensures
            r@ == self@,
    {
        Member { id: self.id, external_id: self.external_id.clone() }
    }
}

/// Copies a vector of member records, model for model.
fn clone_members(v: &Vec<Member>) -> (r: Vec<Member>)
    ensures
        r.deep_view() == v.deep_view(),
{
    let mut r: Vec<Member> = Vec::new();
    let mut i: usize = 0;
    while i < v.len()
        invariant
            i <= v.len(),
            r@.len() == i,
            forall|j: int| 0 <= j < i ==> r@[j]@ == v@[j]@,
        decreases v.len() - i,
    {
        r.push(v[i].duplicate());
        i = i + 1;
    }
    proof {
        assert forall|j: int| 0 <= j < v@.len() implies r.deep_view()[j] == v.deep_view()[j] by {
            assert(r@[j]@ == v@[j]@);
        }
        assert(r.deep_view() =~= v.deep_view());
    }
    r
}

impl Database {
    /// Stores a new member under a fresh id and returns the stored record.
    /// An external id wider than the column is refused with `DataTooLong`.
    pub fn insert_member(&mut self, external_id: String) -> (r: Result<Member, Error>)
        ensures
            !super::varchar_ok(external_id@) ==> (r matches Err(Error::DataTooLong(f)) && f@
                == "external_id"@) && final(self)@ == old(self)@,
            super::varchar_ok(external_id@) && old(self)@.next_id == u64::MAX ==> (r matches Err(e)
                && e == Error::IllegalState) && final(self)@ == old(self)@,
            super::varchar_ok(external_id@) && old(self)@.next_id < u64::MAX ==> ({
                &&& r matches Ok(m) && m@ == (MemberV {
                    id: Some(old(self)@.next_id),
                    external_id: external_id@,
                })
                &&& final(self)@ == (DatabaseV {
                    members: old(self)@.members.push(
                        MemberV { id: Some(old(self)@.next_id), external_id: external_id@ },
                    ),
                    next_id: (old(self)@.next_id + 1) as u64,
                    ..old(self)@
                })
            }),
    {
        if !check_varchar(external_id.as_str()) {
            return Err(Error::DataTooLong("external_id".to_owned()));
        }
        let id = match self.take_id() {
            Err(e) => {
                return Err(e);
            },
            Ok(id) => id,
        };
        let m = Member { id: Some(id), external_id };
        let stored = m.duplicate();
        self.members.push(m);
        proof {
            assert(self@.members =~= old(self)@.members.push(stored@));
            assert(self@ =~= (DatabaseV {
                members: old(self)@.members.push(stored@),
                next_id: (old(self)@.next_id + 1) as u64,
                ..old(self)@
            }));
        }
        Ok(stored)
    }

    /// Replaces the first stored member carrying the given record's id; a
    /// record with no or an unknown id changes nothing. An external id wider
    /// than the column is refused with `DataTooLong`.
    pub fn update_member(&mut self, member: &Member) -> (r: Result<(), Error>)
        ensures
            !super::varchar_ok(member@.external_id) ==> (r matches Err(Error::DataTooLong(f)) && f@
                == "external_id"@) && final(self)@ == old(self)@,
            super::varchar_ok(member@.external_id) ==> r is Ok && ({
                let members = old(self)@.members;
                if member@.id is Some && member_with_id(members, member@.id->0) {
                    exists|i: int|
                        0 <= i < members.len() && members[i].id == member@.id && (forall|j: int|
                            0 <= j < i ==> members[j].id != member@.id) && final(self)@
                            == (DatabaseV { members: members.update(i, member@), ..old(self)@ })
                } else {
                    final(self)@ == old(self)@
                }
            }),
    {
        if !check_varchar(member.external_id.as_str()) {
            return Err(Error::DataTooLong("external_id".to_owned()));
        }
        let id = match member.id {
            None => {
                return Ok(());
            },
            Some(id) => id,
        };
        let ghost members = self@.members;
        let mut i: usize = 0;
        while i < self.members.len()
            invariant
                i <= self.members.len(),
                members == old(self)@.members,
                self@ == old(self)@,
                super::varchar_ok(member@.external_id),
                member@.id == Some(id),
                forall|j: int| 0 <= j < i ==> members[j].id != Some(id),
            decreases self.members.len() - i,
        {
            proof {
                assert(members[i as int] == self.members@[i as int]@);
            }
            let found = match self.members[i].id {
                Some(mid) => mid == id,
                None => false,
            };
            if found {
                let ghost w = i as int;
                self.members.set(i, member.duplicate());
                proof {
                    assert(members[w].id == member@.id);
                    assert(member_with_id(members, id));
                    assert(self@.members =~= members.update(w, member@));
                    assert(self@ =~= (DatabaseV { members: members.update(w, member@), ..old(self)@ }));
                    assert(exists|k: int|
                        0 <= k < members.len() && members[k].id == member@.id && (forall|j: int|
                            0 <= j < k ==> members[j].id != member@.id) && self@ == (DatabaseV {
                            members: members.update(k, member@),
                            ..old(self)@
                        }));
                }
                return Ok(());
            }
            i = i + 1;
        }
        proof {
            assert(!member_with_id(members, id));
        }
        Ok(())
    }

    /// A copy of the first stored member carrying the given id; `None` when
    /// the id is unknown.
    pub fn get_member(&self, member_id: MemberId) -> (r: Result<Option<Member>, Error>)
        ensures
            ({
                let members = self@.members;
                match r {
                    Ok(Some(m)) => exists|i: int|
                        0 <= i < members.len() && members[i].id == Some(member_id) && m@
                            == members[i] && (forall|j: int|
                            0 <= j < i ==> members[j].id != Some(member_id)),
                    Ok(None) => !member_with_id(members, member_id),
                    Err(_) => false,
                }
            }),
    {
        let mut i: usize = 0;
        while i < self.members.len()
            invariant
                i <= self.members.len(),
                forall|j: int| 0 <= j < i ==> self@.members[j].id != Some(member_id),
            decreases self.members.len() - i,
        {
            proof {
                assert(self@.members[i as int] == self.members@[i as int]@);
            }
            let found = match self.members[i].id {
                Some(mid) => mid == member_id,
                None => false,
            };
            if found {
                let m = self.members[i].duplicate();
                proof {
                    let ghost w = i as int;
                    assert(self@.members[w].id == Some(member_id));
                    assert(exists|k: int|
                        0 <= k < self@.members.len() && self@.members[k].id == Some(member_id) && m@
                            == self@.members[k] && (forall|j: int|
                            0 <= j < k ==> self@.members[j].id != Some(member_id)));
                }
                return Ok(Some(m));
            }
            i = i + 1;
        }
        Ok(None)
    }

    /// A copy of every stored member, in storage order.
    pub fn get_members(&self) -> (r: Result<Vec<Member>, Error>)
        ensures
            r matches Ok(v) && v.deep_view() == self@.members,
    {
        Ok(clone_members(&self.members))
    }

    /// Removes the first stored member carrying the given id; the answer
    /// says whether anything was removed.
    pub fn delete_member(&mut self, id: MemberId) -> (r: Result<bool, Error>)
        ensures
            ({
                let members = old(self)@.members;
                match r {
                    Ok(true) => exists|i: int|
                        0 <= i < members.len() && members[i].id == Some(id) && (forall|j: int|
                            0 <= j < i ==> members[j].id != Some(id)) && final(self)@ == (DatabaseV {
                            members: members.remove(i),
                            ..old(self)@
                        }),
                    Ok(false) => !member_with_id(members, id) && final(self)@ == old(self)@,
                    Err(_) => false,
                }
            }),
    {
        let ghost members = self@.members;
        let mut i: usize = 0;
        while i < self.members.len()
            invariant
                i <= self.members.len(),
                members == old(self)@.members,
                self@ == old(self)@,
                forall|j: int| 0 <= j < i ==> members[j].id != Some(id),
            decreases self.members.len() - i,
        {
            proof {
                assert(members[i as int] == self.members@[i as int]@);
            }
            let found = match self.members[i].id {
                Some(mid) => mid == id,
                None => false,
            };
            if found {
                let ghost w = i as int;
                self.members.remove(i);
                proof {
                    assert(members[w].id == Some(id));
                    assert(self@.members =~= members.remove(w));
                    assert(self@ =~= (DatabaseV { members: members.remove(w), ..old(self)@ }));
                    assert(exists|k: int|
                        0 <= k < members.len() && members[k].id == Some(id) && (forall|j: int|
                            0 <= j < k ==> members[j].id != Some(id)) && self@ == (DatabaseV {
                            members: members.remove(k),
                            ..old(self)@
                        }));
                }
                return Ok(true);
            }
            i = i + 1;
        }
        Ok(false)
    }
}

} // verus!
