//! Guilds: lending collectives with a contact member.

use vstd::prelude::*;

use super::Database;
use super::DatabaseV;
use super::GuildId;
use super::check_varchar;
use super::member_with_id;
use crate::database::member::MemberId;
use crate::error::Error;

verus! {

/// One guild record.
#[derive(Debug, Clone, PartialEq, Eq)]
pub struct Guild {
    pub id: Option<GuildId>,
    pub name: String,
    pub address: String,
    pub contact: MemberId,
}

/// Mathematical model of a [`Guild`].
#[verifier::ext_equal]
pub ghost struct GuildV {
    pub id: Option<GuildId>,
    pub name: Seq<char>,
    pub address: Seq<char>,
    pub contact: MemberId,
}

impl View for Guild {
    type V = GuildV;

    open spec fn view(&self) -> GuildV {
        GuildV { id: self.id, name: self.name@, address: self.address@, contact: self.contact }
    }
}

impl DeepView for Guild {
    type V = GuildV;

    open spec fn deep_view(&self) -> GuildV {
        self.view()
    }
}

impl Guild {
    /// A record from its constituents; a record not yet stored has no id.
    pub fn new(id: Option<GuildId>, name: String, address: String, contact: MemberId) -> (r: Guild)
        ensures
            r@ == (GuildV { id, name: name@, address: address@, contact }),
    {
        Guild { id, name, address, contact }
    }

    /// An explicit copy whose contract says the copy models the original.
    pub fn duplicate(&self) -> (r: Guild)
        ensures
            r@ == self@,
    {
        Guild {
            id: self.id,
            name: self.name.clone(),
            address: self.address.clone(),
            contact: self.contact,
        }
    }
}

/// Copies a vector of guild records, model for model.
pub(crate) fn clone_guilds(v: &Vec<Guild>) -> (r: Vec<Guild>)
    ensures
        r.deep_view() == v.deep_view(),
{
    let mut r: Vec<Guild> = Vec::new();
    let mut i: usize = 0;
    while i < v.len()
        invariant
            i <= v.len(),
            r@.len() == i,
            forall|j: int| 0 <= j < i ==> r@[j]@ == v@[j]@,
        decreases v.len() - i,
    {
        r.push(v[i].duplicate());
        i = i + 1;
    }
    proof {
        assert forall|j: int| 0 <= j < v@.len() implies r.deep_view()[j] == v.deep_view()[j] by {
            assert(r@[j]@ == v@[j]@);
        }
        assert(r.deep_view() =~= v.deep_view());
    }
    r
}

impl Database {
    /// Stores a new guild under a fresh id and returns the id. A name or
    /// address wider than the column is refused with `DataTooLong`; an
    /// unknown contact member is refused with `ConstraintError`.
    pub fn insert_guild(&mut self, guild: &Guild) -> (r: Result<GuildId, Error>)
        ensures
            !super::varchar_ok(guild@.name) ==> (r matches Err(Error::DataTooLong(f)) && f@
                == "name"@) && final(self)@ == old(self)@,
            super::varchar_ok(guild@.name) && !super::varchar_ok(guild@.address) ==> (r matches Err(
                Error::DataTooLong(f),
            ) && f@ == "address"@) && final(self)@ == old(self)@,
            super::varchar_ok(guild@.name) && super::varchar_ok(guild@.address) && !member_with_id(
                old(self)@.members,
                guild@.contact,
            ) ==> (r matches Err(Error::ConstraintError(f)) && f@ == "contact"@) && final(self)@
                == old(self)@,
            super::varchar_ok(guild@.name) && super::varchar_ok(guild@.address) && member_with_id(
                old(self)@.members,
                guild@.contact,
            ) && old(self)@.next_id == u64::MAX ==> (r matches Err(e) && e == Error::IllegalState)
                && final(self)@ == old(self)@,
            super::varchar_ok(guild@.name) && super::varchar_ok(guild@.address) && member_with_id(
                old(self)@.members,
                guild@.contact,
            ) && old(self)@.next_id < u64::MAX ==> ({
                &&& r == Ok::<GuildId, Error>(old(self)@.next_id)
                &&& final(self)@ == (DatabaseV {
                    guilds: old(self)@.guilds.push(
                        GuildV { id: Some(old(self)@.next_id), ..guild@ },
                    ),
                    next_id: (old(self)@.next_id + 1) as u64,
                    ..old(self)@
                })
            }),
    {
        if !check_varchar(guild.name.as_str()) {
            return Err(Error::DataTooLong("name".to_owned()));
        }
        if !check_varchar(guild.address.as_str()) {
            return Err(Error::DataTooLong("address".to_owned()));
        }
        if !self.has_member(guild.contact) {
            return Err(Error::ConstraintError("contact".to_owned()));
        }
        let id = match self.take_id() {
            Err(e) => {
                return Err(e);
            },
            Ok(id) => id,
        };
        let mut stored = guild.duplicate();
        stored.id = Some(id);
        proof {
            assert(stored@ =~= (GuildV { id: Some(id), ..guild@ }));
        }
        self.guilds.push(stored);
        proof {
            assert(self@.guilds =~= old(self)@.guilds.push(GuildV { id: Some(id), ..guild@ }));
            assert(self@ =~= (DatabaseV {
                guilds: old(self)@.guilds.push(GuildV { id: Some(id), ..guild@ }),
                next_id: (old(self)@.next_id + 1) as u64,
                ..old(self)@
            }));
        }
        Ok(id)
    }

    /// Whether any stored member carries the given id.
    pub fn has_member(&self, id: MemberId) -> (r: bool)
        ensures
            r == member_with_id(self@.members, id),
    {
        let mut i: usize = 0;
        while i < self.members.len()
            invariant
                i <= self.members.len(),
                forall|j: int| 0 <= j < i ==> self@.members[j].id != Some(id),
            decreases self.members.len() - i,
        {
            proof {
                assert(self@.members[i as int] == self.members@[i as int]@);
            }
            let found = match self.members[i].id {
                Some(mid) => mid == id,
                None => false,
            };
            if found {
                return true;
            }
            i = i + 1;
        }
        false
    }

    /// Whether any stored guild carries the given id.
    pub fn has_guild(&self, id: GuildId) -> (r: bool)
        ensures
            r == super::guild_with_id(self@.guilds, id),
    {
        let mut i: usize = 0;
        while i < self.guilds.len()
            invariant
                i <= self.guilds.len(),
                forall|j: int| 0 <= j < i ==> self@.guilds[j].id != Some(id),
            decreases self.guilds.len() - i,
        {
            proof {
                assert(self@.guilds[i as int] == self.guilds@[i as int]@);
            }
            let found = match self.guilds[i].id {
                Some(gid) => gid == id,
                None => false,
            };
            if found {
                return true;
            }
            i = i + 1;
        }
        false
    }

    /// A copy of the first stored guild carrying the given id; `None` when
    /// the id is unknown.
    pub fn find_guild(&self, id: GuildId) -> (r: Option<Guild>)
        ensures
            r.deep_view() == super::first_guild(self@.guilds, id),
    {
        let mut i: usize = 0;
        while i < self.guilds.len()
            invariant
                i <= self.guilds.len(),
                forall|j: int| 0 <= j < i ==> self@.guilds[j].id != Some(id),
            decreases self.guilds.len() - i,
        {
            proof {
                assert(self@.guilds[i as int] == self.guilds@[i as int]@);
            }
            let found = match self.guilds[i].id {
                Some(gid) => gid == id,
                None => false,
            };
            if found {
                let g = self.guilds[i].duplicate();
                proof {
                    super::lemma_first_guild_prefix(self@.guilds, id, 0, i as int);
                }
                return Some(g);
            }
            i = i + 1;
        }
        proof {
            super::lemma_first_guild_prefix(self@.guilds, id, 0, self@.guilds.len() as int);
        }
        None
    }

    /// A copy of every stored guild, in storage order.
    pub fn get_guilds_list(&self) -> (r: Result<Vec<Guild>, Error>)
        ensures
            r matches Ok(v) && v.deep_view() == self@.guilds,
    {
        Ok(clone_guilds(&self.guilds))
    }
}

} // verus!
