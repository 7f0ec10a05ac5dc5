//! Roles and permission checks for `ROLE_CHANGE`.
//!
//! The protocol defines `ROLE_CHANGE` but leaves the role hierarchy and its
//! permissions to the application. A [`RoleRegistry`] binds numeric role
//! ids to named roles carrying a [`Permissions`] bit set, and tracks each
//! member's current role.

use std::collections::HashMap;
use vstd::prelude::*;
use crate::text::{decimal, decimal_string, hex, hex_string, join2, pad_zeros, zero_padded};
use crate::keyed::KeyedMap;
use crate::vocab::ids::MemberId;

verus! {

broadcast use vstd::std_specs::hash::group_hash_axioms;

/// Application-defined permission bits. Bits 0..8 are named below; bits
/// 8..32 are free for application use.
#[derive(Copy, Clone, Debug, PartialEq, Eq, Structural)]
pub struct Permissions(pub u32);

impl Permissions {
    /// Bit 0: may publish to text streams.
    pub const SEND_TEXT: u32 = 0x01;
    /// Bit 1: may publish to audio streams.
    pub const SEND_AUDIO: u32 = 0x02;
    /// Bit 2: may emit signals.
    pub const SEND_SIGNAL: u32 = 0x04;
    /// Bit 3: may mute / unmute other members.
    pub const MUTE_OTHERS: u32 = 0x08;
    /// Bit 4: may approve `ROLE_CHANGE` requests.
    pub const ASSIGN_ROLES: u32 = 0x10;
    /// Bit 5: may invite new members.
    pub const INVITE: u32 = 0x20;
    /// Bit 6: may remove members from the group.
    pub const REMOVE_MEMBERS: u32 = 0x40;
    /// Bit 7: may close / archive the group.
    pub const CLOSE_GROUP: u32 = 0x80;

    /// `true` if every bit of `mask` is set.
    pub fn has(self, mask: u32) -> (r: bool)
        ensures
            r == (self.0 & mask == mask),
    {
        self.0 & mask == mask
    }

    /// The bits of `self` and of `mask`.
    pub fn with(self, mask: u32) -> (r: Self)
        ensures
            r.0 == self.0 | mask,
    {
        Permissions(self.0 | mask)
    }

    /// The bits of `self` without those of `mask`.
    pub fn without(self, mask: u32) -> (r: Self)
        ensures
            r.0 == self.0 & !mask,
    {
        Permissions(self.0 & !mask)
    }
}

impl Default for Permissions {
    /// No permission.
    fn default() -> (r: Self)
        ensures
            r.0 == 0,
    {
        Permissions(0)
    }
}

impl core::ops::BitOr<u32> for Permissions {
    type Output = Self;

    /// The bits of `self` and of `rhs`.
    fn bitor(self, rhs: u32) -> (r: Self)
        ensures
            r.0 == self.0 | rhs,
    {
        Permissions(self.0 | rhs)
    }
}

impl vstd::std_specs::ops::BitOrSpecImpl<u32> for Permissions {
    open spec fn obeys_bitor_spec() -> bool {
        true
    }

    open spec fn bitor_req(self, rhs: u32) -> bool {
        true
    }

    open spec fn bitor_spec(self, rhs: u32) -> Self {
        Permissions(self.0 | rhs)
    }
}

/// A role definition.
#[derive(Clone, Debug)]
pub struct RoleSpec {
    /// Numeric role id (the `role_claim` field on the wire).
    pub id: u32,
    /// Stable human-readable name for logs.
    pub name: String,
    /// Permissions granted by the role.
    pub permissions: Permissions,
}

/// Errors returned by [`RoleRegistry`].
#[derive(Debug, PartialEq, Eq)]
pub enum RoleError {
    /// The role id is not registered.
    UnknownRole(u32),
    /// The acting member lacks a required permission.
    Unauthorised {
        /// Acting member.
        member: MemberId,
        /// Required permission mask.
        permission: u32,
    },
}

/// The display text of a role error.
pub open spec fn role_error_text(e: RoleError) -> Seq<char> {
    match e {
        RoleError::UnknownRole(r) => "unknown role: "@ + decimal(r as nat),
        RoleError::Unauthorised { member, permission } => "member "@ + decimal(member as nat)
            + " lacks permission 0x"@ + zero_padded(hex(permission as nat, true), 8),
    }
}

impl RoleError {
    /// Display text of the error.
    pub fn message(&self) -> (r: String)
        ensures
            r@ == role_error_text(*self),
    {
        match self {
            RoleError::UnknownRole(r) => join2("unknown role: ".to_owned(), decimal_string(*r as u64).as_str()),
            RoleError::Unauthorised { member, permission } => {
                let s = join2("member ".to_owned(), decimal_string(*member as u64).as_str());
                let s = join2(s, " lacks permission 0x");
                join2(s, pad_zeros(hex_string(*permission as u64, true), 8).as_str())
            },
        }
    }
}

/// The abstract state of a [`RoleRegistry`].
pub struct RoleRegistryView {
    /// Role definitions by id.
    pub roles: Map<u32, RoleSpec>,
    /// Each member's assigned role id.
    pub assignments: Map<u32, u32>,
}

/// The role assigned to `member`, if it is defined.
pub open spec fn role_of_spec(v: RoleRegistryView, member: u32) -> Option<RoleSpec> {
    if v.assignments.contains_key(member) && v.roles.contains_key(v.assignments[member]) {
        Some(v.roles[v.assignments[member]])
    } else {
        None
    }
}

/// The permission bits of `member`: those of its role, none without one.
pub open spec fn permissions_spec(v: RoleRegistryView, member: u32) -> u32 {
    match role_of_spec(v, member) {
        Some(r) => r.permissions.0,
        None => 0,
    }
}

/// Role definitions plus the assignment of each member's current role.
pub struct RoleRegistry {
    roles: KeyedMap<RoleSpec>,
    assignments: HashMap<MemberId, u32>,
}

impl View for RoleRegistry {
    type V = RoleRegistryView;

    closed spec fn view(&self) -> RoleRegistryView {
        RoleRegistryView { roles: self.roles@, assignments: self.assignments@ }
    }
}

impl RoleRegistry {
    /// The role ids in the order they were first defined.
    pub closed spec fn role_order(&self) -> Seq<u32> {
        self.roles.key_order()
    }

    /// The role order lists exactly the defined roles, each once.
    pub closed spec fn wf(&self) -> bool {
        self.roles.wf()
    }

    /// An empty registry.
    pub fn new() -> (r: Self)
        ensures
            r.wf(),
            r@ == (RoleRegistryView { roles: Map::empty(), assignments: Map::empty() }),
    {
        let r = RoleRegistry { roles: KeyedMap::new(), assignments: HashMap::new() };
        assert(r.assignments@ =~= Map::<u32, u32>::empty());
        r
    }

    /// Registers a role, replacing any role with the same id.
    pub fn define(&mut self, spec: RoleSpec)
        requires
            old(self).wf(),
        ensures
            final(self).wf(),
            final(self)@ == (RoleRegistryView {
                roles: old(self)@.roles.insert(spec.id, spec),
                ..old(self)@
            }),
    {
        let id = spec.id;
        self.roles.insert(id, spec);
    }

    /// Registers a role from its parts.
    pub fn define_role(&mut self, id: u32, name: &str, permissions: Permissions)
        requires
            old(self).wf(),
        ensures
            final(self).wf(),
            final(self)@.assignments == old(self)@.assignments,
            final(self)@.roles.dom() == old(self)@.roles.dom().insert(id),
            final(self)@.roles[id].id == id,
            final(self)@.roles[id].name@ == name@,
            final(self)@.roles[id].permissions == permissions,
            forall|k: u32| k != id && #[trigger] old(self)@.roles.contains_key(k) ==> final(self)@.roles[k]
                == old(self)@.roles[k],
    {
        self.define(RoleSpec { id, name: name.to_owned(), permissions });
    }

    /// The role with id `id`, if defined.
    pub fn role(&self, id: u32) -> (r: Option<&RoleSpec>)
        ensures
            match r {
                Some(s) => self@.roles.contains_key(id) && *s == self@.roles[id],
                None => !self@.roles.contains_key(id),
            },
    {
        self.roles.get(id)
    }

    /// Every defined role, in the order the ids were first defined.
    pub fn roles(&self) -> (r: Vec<&RoleSpec>)
        requires
            self.wf(),
        ensures
            r@.len() == self.role_order().len(),
            forall|i: int|
                0 <= i < r@.len() ==> *#[trigger] r@[i] == self@.roles[self.role_order()[i]],
            forall|k: u32| self@.roles.contains_key(k) <==> #[trigger] self.role_order().contains(k),
    {
        proof {
            self.roles.lemma_wf();
        }
        let n = self.roles.len();
        let mut out: Vec<&RoleSpec> = Vec::new();
        let mut i: usize = 0;
        while i < n
            invariant
                0 <= i <= n,
                n == self.role_order().len(),
                self.wf(),
                forall|k: u32| #[trigger] self@.roles.contains_key(k) <==> self.role_order().contains(k),
                out@.len() == i,
                forall|j: int| 0 <= j < i ==> *#[trigger] out@[j] == self@.roles[self.role_order()[j]],
            decreases n - i,
        {
            let k = self.roles.key_at(i);
            assert(self.role_order()[i as int] == k);
            assert(self.role_order().contains(k));
            assert(self@.roles.contains_key(k));
            match self.roles.get(k) {
                Some(s) => {
                    out.push(s);
                },
                None => {},
            }
            i = i + 1;
        }
        out
    }

    /// Assigns role `role_id` to `member`; refused with `UnknownRole` (and
    /// no change) when the role is not defined.
    pub fn assign(&mut self, member: MemberId, role_id: u32) -> (r: Result<(), RoleError>)
        requires
            old(self).wf(),
        ensures
            final(self).wf(),
            old(self)@.roles.contains_key(role_id) ==> r is Ok && final(self)@ == (RoleRegistryView {
                assignments: old(self)@.assignments.insert(member, role_id),
                ..old(self)@
            }),
            !old(self)@.roles.contains_key(role_id) ==> r == Err::<(), RoleError>(
                RoleError::UnknownRole(role_id),
            ) && final(self)@ == old(self)@,
    {
        if !self.roles.contains_key(role_id) {
            return Err(RoleError::UnknownRole(role_id));
        }
        self.assignments.insert(member, role_id);
        Ok(())
    }

    /// The role currently assigned to `member`, if any.
    pub fn role_of(&self, member: MemberId) -> (r: Option<&RoleSpec>)
        ensures
            match r {
                Some(s) => role_of_spec(self@, member) == Some(*s),
                None => role_of_spec(self@, member) is None,
            },
    {
        match self.assignments.get(&member) {
            Some(id) => self.roles.get(*id),
            None => None,
        }
    }

    /// The permissions of `member`: those of its role, none without one.
    pub fn permissions_of(&self, member: MemberId) -> (r: Permissions)
        ensures
            r.0 == permissions_spec(self@, member),
    {
        match self.role_of(member) {
            Some(s) => s.permissions,
            None => Permissions(0),
        }
    }

    /// `Ok` if `member` carries every bit of `mask`, else `Unauthorised`.
    pub fn require(&self, member: MemberId, mask: u32) -> (r: Result<(), RoleError>)
        ensures
            (permissions_spec(self@, member) & mask == mask) ==> r is Ok,
            !(permissions_spec(self@, member) & mask == mask) ==> r == Err::<(), RoleError>(
                RoleError::Unauthorised { member, permission: mask },
            ),
    {
        if self.permissions_of(member).has(mask) {
            Ok(())
        } else {
            Err(RoleError::Unauthorised { member, permission: mask })
        }
    }
}

/// Once a defined role is assigned to a member, the member has exactly the
/// role's permissions.
pub proof fn lemma_assigned_role_grants(v: RoleRegistryView, member: u32, role_id: u32)
    requires
        v.roles.contains_key(role_id),
    ensures
        permissions_spec(
            RoleRegistryView { assignments: v.assignments.insert(member, role_id), ..v },
            member,
        ) == v.roles[role_id].permissions.0,
{
}

impl Default for RoleRegistry {
    /// A registry with no role and no assignment.
    fn default() -> (r: Self)
        ensures
            r.wf(),
            r@ == (RoleRegistryView { roles: Map::empty(), assignments: Map::empty() }),
    {
        Self::new()
    }
}

} // verus!
