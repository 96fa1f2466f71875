//! Ban targets and the keys under which their bans are stored.

use vstd::prelude::*;

use crate::error::BanTargetConversionError;

verus! {

/// The part of a ban key that names an IP address.
pub open spec fn ip_part(ip: Seq<char>) -> Seq<char> {
    "ip:"@ + ip
}

/// The part of a ban key that names a user agent.
pub open spec fn user_agent_part(user_agent: Seq<char>) -> Seq<char> {
    "user_agent:"@ + user_agent
}

/// The storage key of a target: the parts that are present, the IP part
/// first, joined by `__`.
pub open spec fn ban_key(ip: Option<Seq<char>>, user_agent: Option<Seq<char>>) -> Seq<char> {
    match (ip, user_agent) {
        (Some(i), Some(u)) => ip_part(i) + "__"@ + user_agent_part(u),
        (Some(i), None) => ip_part(i),
        (None, Some(u)) => user_agent_part(u),
        (None, None) => Seq::empty(),
    }
}

/// A target of a ban: an IP address, a user agent, or both.
#[derive(Debug, Clone)]
pub struct BanTarget {
    pub ip: Option<String>,
    pub user_agent: Option<String>,
}

impl BanTarget {
    /// At least one of the two fields is present.
    pub open spec fn has_field(&self) -> bool {
        self.ip is Some || self.user_agent is Some
    }

    /// The key under which the ban of this target is stored.
    pub open spec fn key(&self) -> Seq<char> {
        ban_key(self.ip.deep_view(), self.user_agent.deep_view())
    }

    /// Renders the storage key of the target, e.g. `ip:1.1.1.1__user_agent:abc`.
    /// A target without any field has no key.
    pub fn to_string(&self) -> (s: String)
        requires
            self.has_field(),
        ensures
            s@ == self.key(),
    {
        let mut s = String::new();
        match &self.ip {
            Some(ip) => {
                s.append("ip:");
                s.append(ip.as_str());
            },
            None => {},
        }
        match &self.user_agent {
            Some(user_agent) => {
                if self.ip.is_some() {
                    s.append("__");
                }
                s.append("user_agent:");
                s.append(user_agent.as_str());
            },
            None => {},
        }
        s
    }
}

/// The storage key spells out the fields that are present, each in full:
/// `ip:` and the IP address, `user_agent:` and the user agent, joined by
/// `__` when both are present.
pub proof fn lemma_key_spells_fields(t: BanTarget)
    ensures
        match (t.ip, t.user_agent) {
            (Some(i), Some(u)) => t.key() == "ip:"@ + i@ + "__"@ + "user_agent:"@ + u@,
            (Some(i), None) => t.key() == "ip:"@ + i@,
            (None, Some(u)) => t.key() == "user_agent:"@ + u@,
            (None, None) => true,
        },
        t.user_agent matches Some(u) ==> t.key().len() >= u@.len() && t.key().subrange(
            t.key().len() - u@.len(),
            t.key().len() as int,
        ) == u@,
        t.ip matches Some(i) ==> t.key().len() >= 3 + i@.len() && t.key().subrange(3, 3 + i@.len() as int)
            == i@,
{
    reveal_strlit("ip:");
    match (t.ip, t.user_agent) {
        (Some(i), Some(u)) => {
            assert(t.key() =~= "ip:"@ + i@ + "__"@ + "user_agent:"@ + u@);
            assert(t.key().subrange(t.key().len() - u@.len(), t.key().len() as int) =~= u@);
            assert(t.key().subrange(3, 3 + i@.len() as int) =~= i@);
        },
        (Some(i), None) => {
            assert(t.key().subrange(3, 3 + i@.len() as int) =~= i@);
        },
        (None, Some(u)) => {
            assert(t.key().subrange(t.key().len() - u@.len(), t.key().len() as int) =~= u@);
        },
        (None, None) => {},
    }
}

/// What an unban request names: one target, or a pattern.
#[derive(Debug, Clone)]
pub enum UnbanEntity {
    Target(BanTarget),
    Pattern(String),
}

impl UnbanEntity {
    /// The error that `verify` reports for this entity, if any.
    pub open spec fn verify_error(&self) -> Option<BanTargetConversionError> {
        match self {
            UnbanEntity::Target(bt) => if bt.has_field() {
                None
            } else {
                Some(BanTargetConversionError::EmptyRequest)
            },
            UnbanEntity::Pattern(p) => if p@ == "*"@ {
                None
            } else {
                Some(BanTargetConversionError::PatternUnsupported)
            },
        }
    }

    /// Accepts a target with at least one field, or the pattern `*`.
    pub fn verify(&self) -> (r: Result<(), BanTargetConversionError>)
        ensures
            match self.verify_error() {
                None => r is Ok,
                Some(e) => r == Err::<(), BanTargetConversionError>(e),
            },
    {
        match self {
            UnbanEntity::Target(bt) => {
                if bt.ip.is_none() && bt.user_agent.is_none() {
                    Err(BanTargetConversionError::EmptyRequest)
                } else {
                    Ok(())
                }
            },
            UnbanEntity::Pattern(p) => {
                let star = String::from_str("*");
                if *p != star {
                    Err(BanTargetConversionError::PatternUnsupported)
                } else {
                    Ok(())
                }
            },
        }
    }
}

/// An unban entity is accepted exactly when it is a target naming an IP
/// address, a user agent or both, or the pattern `*`; a target naming
/// neither is an empty request, any other pattern is unsupported.
pub proof fn lemma_unban_entity_verdict(e: UnbanEntity)
    ensures
        e matches UnbanEntity::Target(bt) ==> ((bt.ip is Some || bt.user_agent is Some)
            <==> e.verify_error() is None),
        e matches UnbanEntity::Target(bt) ==> (bt.ip is None && bt.user_agent is None ==> e.verify_error()
            == Some(BanTargetConversionError::EmptyRequest)),
        e matches UnbanEntity::Pattern(p) ==> (p@ == "*"@ <==> e.verify_error() is None),
        e matches UnbanEntity::Pattern(p) ==> (p@ != "*"@ ==> e.verify_error() == Some(
            BanTargetConversionError::PatternUnsupported,
        )),
{
}

} // verus!
