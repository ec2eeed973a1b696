//! Configuration model: the bot's authentication token and the set of
//! location roles, parsed from a comma-separated list of
//! `timezone:roleId` pairs.  Reading the environment is the caller's
//! business; the parsing and validation rules live here.

use vstd::prelude::*;
use crate::text::dedup_first;
use crate::text::spec_parse_u64;
use crate::text::spec_split;
use crate::text::spec_find;
use crate::text::find_char;
use crate::text::parse_u64;
use crate::text::split_char;
use crate::zones::zone_is_known;
use crate::zones::zone_known;

verus! {

/// A group-membership marker standing for a timezone: one per configured
/// input role, identified by its role id.
pub struct LocationRole {
    role_id: u64,
    timezone: String,
}

/// The role and timezone a configuration piece `timezone:roleId`
/// denotes: present exactly when the role id parses as an integer and the
/// timezone name is known.
pub open spec fn spec_parse_piece(p: Seq<char>) -> Option<(u64, Seq<char>)> {
    match spec_find(p, ':') {
        None => None,
        Some(i) => {
            let tz = p.take(i);
            let role = p.skip(i + 1);
            match spec_parse_u64(role) {
                None => None,
                Some(id) => if zone_known(tz) {
                    Some((id, tz))
                } else {
                    None
                },
            }
        },
    }
}

/// The roles a sequence of configuration pieces denotes, unparsable
/// pieces skipped, in order.
pub open spec fn spec_parse_pieces(ps: Seq<Seq<char>>) -> Seq<(u64, Seq<char>)>
    decreases ps.len(),
{
    if ps.len() == 0 {
        Seq::empty()
    } else {
        let rest = spec_parse_pieces(ps.drop_last());
        match spec_parse_piece(ps.last()) {
            Some(r) => rest.push(r),
            None => rest,
        }
    }
}

/// The role-id/timezone readings of a vector of location roles.
pub open spec fn spec_roles_view(v: Seq<LocationRole>) -> Seq<(u64, Seq<char>)> {
    Seq::new(v.len(), |i: int| (v[i].spec_role_id(), v[i].spec_timezone()))
}

/// The location-role set a configuration string denotes: every
/// well-formed `timezone:roleId` pair, first occurrences kept, exact
/// duplicates dropped.
pub open spec fn spec_location_roles(text: Seq<char>) -> Seq<(u64, Seq<char>)> {
    dedup_first(spec_parse_pieces(spec_split(text, ',')))
}

impl LocationRole {
    #[verifier::type_invariant]
    spec fn wf(self) -> bool {
        zone_known(self.timezone@)
    }

    pub closed spec fn spec_role_id(&self) -> u64 {
        self.role_id
    }

    pub closed spec fn spec_timezone(&self) -> Seq<char> {
        self.timezone@
    }

    /// Validating constructor: succeeds exactly when the role id parses
    /// as an integer and the timezone name is known.
    pub fn new(role_id: &str, timezone: &str) -> (r: Option<LocationRole>)
        ensures
            r is Some <==> (spec_parse_u64(role_id@) is Some && zone_known(timezone@)),
            r matches Some(lr) ==> spec_parse_u64(role_id@) == Some(lr.spec_role_id())
                && lr.spec_timezone() == timezone@,
    {
        if !zone_is_known(timezone) {
            return None;
        }
        match parse_u64(role_id) {
            Some(id) => Some(LocationRole { role_id: id, timezone: timezone.to_owned() }),
            None => None,
        }
    }

    pub fn role_id(&self) -> (r: u64)
        ensures
            r == self.spec_role_id(),
    {
        self.role_id
    }

    /// The role's timezone, always a name the timezone database knows.
    pub fn timezone(&self) -> (r: &String)
        ensures
            r@ == self.spec_timezone(),
            zone_known(r@),
    {
        proof {
            use_type_invariant(self);
        }
        &self.timezone
    }
}

fn roles_contain(v: &Vec<LocationRole>, role_id: u64, tz: &String) -> (b: bool)
    ensures
        b == spec_roles_view(v@).contains((role_id, tz@)),
{
    let mut i: usize = 0;
    while i < v.len()
        invariant
            0 <= i <= v@.len(),
            forall|j: int| 0 <= j < i ==> spec_roles_view(v@)[j] != (role_id, tz@),
        decreases v@.len() - i,
    {
        proof {
            assert(spec_roles_view(v@)[i as int] == (v@[i as int].spec_role_id(), v@[
                i as int
            ].spec_timezone()));
        }
        if v[i].role_id() == role_id && v[i].timezone().eq(tz) {
            return true;
        }
        i = i + 1;
    }
    false
}

/// Parse the comma-separated `timezone:roleId` configuration list,
/// skipping malformed pairs and dropping exact duplicates.
pub fn parse_location_roles(text: &str) -> (r: Vec<LocationRole>)
    ensures
        spec_roles_view(r@) == spec_location_roles(text@),
{
    let pieces = split_char(text, ',');
    let mut parsed: Vec<LocationRole> = Vec::new();
    let mut i: usize = 0;
    while i < pieces.len()
        invariant
            0 <= i <= pieces@.len(),
            spec_roles_view(parsed@) == spec_parse_pieces(pieces.deep_view().take(i as int)),
        decreases pieces@.len() - i,
    {
        let ghost pv = pieces.deep_view();
        let ghost prev = spec_roles_view(parsed@);
        proof {
            assert(pv.take(i + 1).drop_last() =~= pv.take(i as int));
            assert(pv.take(i + 1).last() == pv[i as int]);
            assert(pv[i as int] == pieces@[i as int]@);
        }
        let piece = &pieces[i];
        match find_char(piece.as_str(), ':') {
            Some(k) => {
                let plen = piece.as_str().unicode_len();
                let tz_str = piece.as_str().substring_char(0, k);
                let role_str = piece.as_str().substring_char(k + 1, plen);
                proof {
                    assert(tz_str@ =~= piece@.take(k as int));
                    assert(role_str@ =~= piece@.skip(k + 1));
                }
                match LocationRole::new(role_str, tz_str) {
                    Some(lr) => {
                        parsed.push(lr);
                        proof {
                            assert(spec_roles_view(parsed@) =~= prev.push(
                                (lr.spec_role_id(), lr.spec_timezone()),
                            ));
                        }
                    },
                    None => {
                    },
                }
            },
            None => {
            },
        }
        i = i + 1;
    }
    proof {
        assert(pieces.deep_view().take(pieces@.len() as int) =~= pieces.deep_view());
    }
    let mut out: Vec<LocationRole> = Vec::new();
    let ghost all = spec_roles_view(parsed@);
    let mut j: usize = 0;
    while j < parsed.len()
        invariant
            0 <= j <= parsed@.len(),
            all == spec_roles_view(parsed@),
            spec_roles_view(out@) == dedup_first(all.take(j as int)),
        decreases parsed@.len() - j,
    {
        let ghost prev = spec_roles_view(out@);
        proof {
            assert(all.take(j + 1).drop_last() =~= all.take(j as int));
            assert(all.take(j + 1).last() == all[j as int]);
            assert(all[j as int] == (parsed@[j as int].spec_role_id(), parsed@[
                j as int
            ].spec_timezone()));
            crate::text::lemma_dedup_first_contains(all.take(j as int), all[j as int]);
        }
        let role_id = parsed[j].role_id();
        let tz = parsed[j].timezone();
        let tz_owned = tz.clone();
        proof {
            assert(tz_owned@ == parsed@[j as int].spec_timezone());
        }
        if !roles_contain(&out, role_id, &tz_owned) {
            let lr = parsed[j].clone_role();
            out.push(lr);
            proof {
                assert(spec_roles_view(out@) =~= prev.push(all[j as int]));
            }
        }
        j = j + 1;
    }
    proof {
        assert(all.take(all.len() as int) =~= all);
    }
    out
}

impl LocationRole {
    /// An equal copy of the role.
    pub fn clone_role(&self) -> (r: LocationRole)
        ensures
            r.spec_role_id() == self.spec_role_id(),
            r.spec_timezone() == self.spec_timezone(),
    {
        proof {
            use_type_invariant(self);
        }
        LocationRole { role_id: self.role_id, timezone: self.timezone.clone() }
    }
}

/// The process configuration: the bot token and the location-role set.
pub struct Config {
    bot_token: String,
    location_roles: Vec<LocationRole>,
}

impl Config {
    pub closed spec fn spec_bot_token(&self) -> Seq<char> {
        self.bot_token@
    }

    pub closed spec fn spec_location_roles(&self) -> Seq<(u64, Seq<char>)> {
        spec_roles_view(self.location_roles@)
    }

    /// Build the configuration from the raw token and the raw
    /// `timezone:roleId` list.
    pub fn new(bot_token: String, location_roles_text: &str) -> (r: Config)
        ensures
            r.spec_bot_token() == bot_token@,
            r.spec_location_roles() == spec_location_roles(location_roles_text@),
    {
        let location_roles = parse_location_roles(location_roles_text);
        Config { bot_token, location_roles }
    }

    pub fn bot_token(&self) -> (r: &str)
        ensures
            r@ == self.spec_bot_token(),
    {
        self.bot_token.as_str()
    }

    pub fn location_roles(&self) -> (r: &Vec<LocationRole>)
        ensures
            spec_roles_view(r@) == self.spec_location_roles(),
    {
        &self.location_roles
    }
}

} // verus!
