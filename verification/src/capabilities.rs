//! Runtime capability sets. A verb is shown and dispatchable only when every
//! capability in its `requires` set is present.

use vstd::prelude::*;
use crate::invocation::{owned, push_arg, texts};
use crate::text::{join, join_with};

verus! {

/// One runtime prerequisite.
#[derive(Clone, Copy, PartialEq, Eq, Structural, Debug)]
pub enum Flag {
    NiriSocket,
    Fuzzel,
    Fork,
    NiriActivities,
}

impl Flag {
    /// The bit that stands for this flag inside a [`Capabilities`] value.
    pub open spec fn mask(self) -> u8 {
        match self {
            Flag::NiriSocket => 1u8,
            Flag::Fuzzel => 2u8,
            Flag::Fork => 4u8,
            Flag::NiriActivities => 8u8,
        }
    }
}

/// A set of [`Flag`]s, stored as four low bits of a byte.
#[derive(Clone, Copy, PartialEq, Eq, Structural, Debug)]
pub struct Capabilities {
    bits: u8,
}

/// Whether the bit `mask` is set in `bits`.
pub open spec fn bit_set(bits: u8, mask: u8) -> bool {
    bits & mask != 0
}

impl Capabilities {
    #[verifier::type_invariant]
    spec fn inv(self) -> bool {
        self.bits < 16
    }

    /// The raw bits (the low four carry the flags).
    pub closed spec fn spec_bits(self) -> u8 {
        self.bits
    }

    /// Whether `f` is in the set.
    pub open spec fn has(self, f: Flag) -> bool {
        bit_set(self.spec_bits(), f.mask())
    }

    /// The set of flags present.
    pub open spec fn flags(self) -> Set<Flag> {
        Set::new(|f: Flag| self.has(f))
    }

    /// `self` holds every flag of `other`.
    pub open spec fn covers(self, other: Capabilities) -> bool {
        forall|f: Flag| #[trigger] other.has(f) ==> self.has(f)
    }

    /// The raw bits of the set.
    pub fn bits(&self) -> (b: u8)
        ensures
            b == self.spec_bits(),
            b < 16,
    {
        proof {
            use_type_invariant(self);
        }
        self.bits
    }

    /// Builds a set from raw bits, dropping bits that name no flag.
    pub fn from_bits_truncate(bits: u8) -> (c: Capabilities)
        ensures
            forall|f: Flag| #[trigger] c.has(f) == bit_set(bits, f.mask()),
    {
        let b = bits & 15u8;
        proof {
            lemma_mask_low(bits);
        }
        let c = Capabilities { bits: b };
        proof {
            lemma_each_flag(|f: Flag| c.has(f) == bit_set(bits, f.mask()));
        }
        c
    }

    /// The set with no flags.
    pub fn empty() -> (c: Capabilities)
        ensures
            forall|f: Flag| !#[trigger] c.has(f),
    {
        let c = Capabilities { bits: 0 };
        proof {
            lemma_bits_of(0u8);
            lemma_each_flag(|f: Flag| !c.has(f));
        }
        c
    }

    /// The set with all four flags.
    pub fn all() -> (c: Capabilities)
        ensures
            forall|f: Flag| #[trigger] c.has(f),
    {
        let c = Capabilities { bits: 15 };
        proof {
            lemma_bits_of(15u8);
            lemma_each_flag(|f: Flag| c.has(f));
        }
        c
    }

    /// `$NIRI_SOCKET` is set and the compositor answers.
    pub fn niri_socket() -> (c: Capabilities)
        ensures
            forall|f: Flag| #[trigger] c.has(f) == (f == Flag::NiriSocket),
    {
        let c = Capabilities { bits: 1 };
        proof {
            lemma_bits_of(1u8);
            lemma_each_flag(|f: Flag| c.has(f) == (f == Flag::NiriSocket));
        }
        c
    }

    /// `fuzzel` is on `$PATH`.
    pub fn fuzzel() -> (c: Capabilities)
        ensures
            forall|f: Flag| #[trigger] c.has(f) == (f == Flag::Fuzzel),
    {
        let c = Capabilities { bits: 2 };
        proof {
            lemma_bits_of(2u8);
            lemma_each_flag(|f: Flag| c.has(f) == (f == Flag::Fuzzel));
        }
        c
    }

    /// The compositor is the jiji fork (it answers the activities request).
    pub fn fork() -> (c: Capabilities)
        ensures
            forall|f: Flag| #[trigger] c.has(f) == (f == Flag::Fork),
    {
        let c = Capabilities { bits: 4 };
        proof {
            lemma_bits_of(4u8);
            lemma_each_flag(|f: Flag| c.has(f) == (f == Flag::Fork));
        }
        c
    }

    /// `jiji-activities` is installed and runs.
    pub fn niri_activities() -> (c: Capabilities)
        ensures
            forall|f: Flag| #[trigger] c.has(f) == (f == Flag::NiriActivities),
    {
        let c = Capabilities { bits: 8 };
        proof {
            lemma_bits_of(8u8);
            lemma_each_flag(|f: Flag| c.has(f) == (f == Flag::NiriActivities));
        }
        c
    }

    /// The set holding exactly `f`.
    pub fn of(f: Flag) -> (c: Capabilities)
        ensures
            forall|g: Flag| #[trigger] c.has(g) == (g == f),
    {
        match f {
            Flag::NiriSocket => Capabilities::niri_socket(),
            Flag::Fuzzel => Capabilities::fuzzel(),
            Flag::Fork => Capabilities::fork(),
            Flag::NiriActivities => Capabilities::niri_activities(),
        }
    }

    /// Whether `f` is present.
    pub fn has_flag(&self, f: Flag) -> (r: bool)
        ensures
            r == self.has(f),
    {
        let o = Capabilities::of(f);
        let r = self.contains(o);
        proof {
            if r {
                assert(o.has(f));
            }
        }
        r
    }

    /// Every flag of `other` is present in `self`.
    pub fn contains(&self, other: Capabilities) -> (r: bool)
        ensures
            r == self.covers(other),
            r == other.flags().subset_of(self.flags()),
    {
        proof {
            use_type_invariant(self);
            use_type_invariant(&other);
            lemma_contains_bits(self.bits, other.bits);
        }
        let r = (self.bits & other.bits) == other.bits;
        proof {
            if r {
                lemma_each_flag(|f: Flag| other.has(f) ==> self.has(f));
            } else if self.covers(other) {
                assert(other.has(Flag::NiriSocket) ==> self.has(Flag::NiriSocket));
                assert(other.has(Flag::Fuzzel) ==> self.has(Flag::Fuzzel));
                assert(other.has(Flag::Fork) ==> self.has(Flag::Fork));
                assert(other.has(Flag::NiriActivities) ==> self.has(Flag::NiriActivities));
            }
            assert(r == self.covers(other));
            assert(other.flags().subset_of(self.flags()) == self.covers(other)) by {
                if self.covers(other) {
                    assert forall|f: Flag| other.flags().contains(f) implies self.flags().contains(
                        f,
                    ) by {
                        assert(other.has(f));
                    }
                }
                if other.flags().subset_of(self.flags()) {
                    assert forall|f: Flag| #[trigger] other.has(f) implies self.has(f) by {
                        assert(other.flags().contains(f));
                    }
                }
            }
        }
        r
    }

    /// The flags present in either set.
    pub fn union(&self, other: Capabilities) -> (c: Capabilities)
        ensures
            forall|f: Flag| #[trigger] c.has(f) == (self.has(f) || other.has(f)),
            c.flags() == self.flags().union(other.flags()),
    {
        proof {
            use_type_invariant(self);
            use_type_invariant(&other);
            lemma_union_bits(self.bits, other.bits);
        }
        let c = Capabilities { bits: self.bits | other.bits };
        proof {
            lemma_each_flag(|f: Flag| c.has(f) == (self.has(f) || other.has(f)));
        }
        assert(c.flags() =~= self.flags().union(other.flags()));
        c
    }

    /// The flags present in `self` but not in `other`.
    pub fn difference(&self, other: Capabilities) -> (c: Capabilities)
        ensures
            forall|f: Flag| #[trigger] c.has(f) == (self.has(f) && !other.has(f)),
            c.flags() == self.flags().difference(other.flags()),
    {
        proof {
            use_type_invariant(self);
            use_type_invariant(&other);
            lemma_difference_bits(self.bits, other.bits);
        }
        let c = Capabilities { bits: self.bits & !other.bits };
        proof {
            lemma_each_flag(|f: Flag| c.has(f) == (self.has(f) && !other.has(f)));
        }
        assert(c.flags() =~= self.flags().difference(other.flags()));
        c
    }

    /// Whether no flag is present.
    pub fn is_empty(&self) -> (r: bool)
        ensures
            r == (forall|f: Flag| !#[trigger] self.has(f)),
    {
        proof {
            use_type_invariant(self);
            lemma_bits_of(self.bits);
        }
        let r = self.bits == 0;
        proof {
            if r {
                lemma_each_flag(|f: Flag| !self.has(f));
            } else {
                assert(self.has(Flag::NiriSocket) || self.has(Flag::Fuzzel) || self.has(Flag::Fork)
                    || self.has(Flag::NiriActivities));
            }
        }
        r
    }

    /// The capability set of the live environment, from the outcome of each
    /// probe. The socket needs `$NIRI_SOCKET` set and a workspaces request
    /// that succeeds; the fork is detected only when the socket is reachable
    /// (its activities request is meaningless otherwise); `jiji-activities`
    /// must be on `$PATH` and answer `--version`. A failed probe leaves its
    /// flag unset and never fails the whole probe.
    pub fn probe(
        socket_env_set: bool,
        workspaces_request_ok: bool,
        fuzzel_on_path: bool,
        activities_request_ok: bool,
        activities_tool_on_path: bool,
        activities_tool_version_ok: bool,
    ) -> (c: Capabilities)
        ensures
            c.has(Flag::NiriSocket) == (socket_env_set && workspaces_request_ok),
            c.has(Flag::Fuzzel) == fuzzel_on_path,
            c.has(Flag::Fork) == (socket_env_set && workspaces_request_ok
                && activities_request_ok),
            c.has(Flag::NiriActivities) == (activities_tool_on_path
                && activities_tool_version_ok),
    {
        let mut caps = Capabilities::empty();
        if socket_env_set && workspaces_request_ok {
            caps = caps.union(Capabilities::niri_socket());
        }
        if fuzzel_on_path {
            caps = caps.union(Capabilities::fuzzel());
        }
        if caps.has_flag(Flag::NiriSocket) && activities_request_ok {
            caps = caps.union(Capabilities::fork());
        }
        if activities_tool_on_path && activities_tool_version_ok {
            caps = caps.union(Capabilities::niri_activities());
        }
        caps
    }
}

/// A property of flags that holds of each of the four holds of all.
pub proof fn lemma_each_flag(p: spec_fn(Flag) -> bool)
    requires
        p(Flag::NiriSocket),
        p(Flag::Fuzzel),
        p(Flag::Fork),
        p(Flag::NiriActivities),
    ensures
        forall|f: Flag| #[trigger] p(f),
{
    assert forall|f: Flag| #[trigger] p(f) by {
        match f {
            Flag::NiriSocket => {},
            Flag::Fuzzel => {},
            Flag::Fork => {},
            Flag::NiriActivities => {},
        }
    }
}

/// Masking to the low four bits keeps exactly the flag bits.
proof fn lemma_mask_low(bits: u8)
    ensures
        (bits & 15u8) < 16,
        ((bits & 15u8) & 1u8 != 0) == (bits & 1u8 != 0),
        ((bits & 15u8) & 2u8 != 0) == (bits & 2u8 != 0),
        ((bits & 15u8) & 4u8 != 0) == (bits & 4u8 != 0),
        ((bits & 15u8) & 8u8 != 0) == (bits & 8u8 != 0),
{
    assert((bits & 15u8) < 16) by (bit_vector);
    assert(((bits & 15u8) & 1u8 != 0) == (bits & 1u8 != 0)) by (bit_vector);
    assert(((bits & 15u8) & 2u8 != 0) == (bits & 2u8 != 0)) by (bit_vector);
    assert(((bits & 15u8) & 4u8 != 0) == (bits & 4u8 != 0)) by (bit_vector);
    assert(((bits & 15u8) & 8u8 != 0) == (bits & 8u8 != 0)) by (bit_vector);
}

/// The flags of small bit patterns.
proof fn lemma_bits_of(b: u8)
    requires
        b < 16,
    ensures
        (b & 1u8 != 0) == (b % 2 == 1),
        (b & 2u8 != 0) == ((b / 2) % 2 == 1),
        (b & 4u8 != 0) == ((b / 4) % 2 == 1),
        (b & 8u8 != 0) == (b >= 8),
        (b == 0) == (b & 1u8 == 0 && b & 2u8 == 0 && b & 4u8 == 0 && b & 8u8 == 0),
{
    assert(b < 16 ==> ((b & 1u8 != 0) == (b % 2 == 1))) by (bit_vector);
    assert(b < 16 ==> ((b & 2u8 != 0) == ((b / 2) % 2 == 1))) by (bit_vector);
    assert(b < 16 ==> ((b & 4u8 != 0) == ((b / 4) % 2 == 1))) by (bit_vector);
    assert(b < 16 ==> ((b & 8u8 != 0) == (b >= 8))) by (bit_vector);
    assert(b < 16 ==> ((b == 0) == (b & 1u8 == 0 && b & 2u8 == 0 && b & 4u8 == 0 && b & 8u8
        == 0))) by (bit_vector);
}

proof fn lemma_contains_bits(a: u8, b: u8)
    requires
        a < 16,
        b < 16,
    ensures
        ((a & b) == b) == ((b & 1u8 != 0 ==> a & 1u8 != 0) && (b & 2u8 != 0 ==> a & 2u8 != 0) && (b
            & 4u8 != 0 ==> a & 4u8 != 0) && (b & 8u8 != 0 ==> a & 8u8 != 0)),
{
    assert((a < 16 && b < 16) ==> (((a & b) == b) == ((b & 1u8 != 0 ==> a & 1u8 != 0) && (b & 2u8
        != 0 ==> a & 2u8 != 0) && (b & 4u8 != 0 ==> a & 4u8 != 0) && (b & 8u8 != 0 ==> a & 8u8
        != 0)))) by (bit_vector);
}

proof fn lemma_union_bits(a: u8, b: u8)
    requires
        a < 16,
        b < 16,
    ensures
        (a | b) < 16,
        ((a | b) & 1u8 != 0) == (a & 1u8 != 0 || b & 1u8 != 0),
        ((a | b) & 2u8 != 0) == (a & 2u8 != 0 || b & 2u8 != 0),
        ((a | b) & 4u8 != 0) == (a & 4u8 != 0 || b & 4u8 != 0),
        ((a | b) & 8u8 != 0) == (a & 8u8 != 0 || b & 8u8 != 0),
{
    assert((a < 16 && b < 16) ==> (a | b) < 16) by (bit_vector);
    assert(((a | b) & 1u8 != 0) == (a & 1u8 != 0 || b & 1u8 != 0)) by (bit_vector);
    assert(((a | b) & 2u8 != 0) == (a & 2u8 != 0 || b & 2u8 != 0)) by (bit_vector);
    assert(((a | b) & 4u8 != 0) == (a & 4u8 != 0 || b & 4u8 != 0)) by (bit_vector);
    assert(((a | b) & 8u8 != 0) == (a & 8u8 != 0 || b & 8u8 != 0)) by (bit_vector);
}

proof fn lemma_difference_bits(a: u8, b: u8)
    requires
        a < 16,
        b < 16,
    ensures
        (a & !b) < 16,
        ((a & !b) & 1u8 != 0) == (a & 1u8 != 0 && b & 1u8 == 0),
        ((a & !b) & 2u8 != 0) == (a & 2u8 != 0 && b & 2u8 == 0),
        ((a & !b) & 4u8 != 0) == (a & 4u8 != 0 && b & 4u8 == 0),
        ((a & !b) & 8u8 != 0) == (a & 8u8 != 0 && b & 8u8 == 0),
{
    assert(a < 16 ==> (a & !b) < 16) by (bit_vector);
    assert(((a & !b) & 1u8 != 0) == (a & 1u8 != 0 && b & 1u8 == 0)) by (bit_vector);
    assert(((a & !b) & 2u8 != 0) == (a & 2u8 != 0 && b & 2u8 == 0)) by (bit_vector);
    assert(((a & !b) & 4u8 != 0) == (a & 4u8 != 0 && b & 4u8 == 0)) by (bit_vector);
    assert(((a & !b) & 8u8 != 0) == (a & 8u8 != 0 && b & 8u8 == 0)) by (bit_vector);
}

/// The names of the flags that are set, in declaration order.
pub open spec fn set_flag_names(socket: bool, fuzzel: bool, fork: bool, activities: bool) -> Seq<Seq<char>> {
    (if socket {
        seq!["NIRI_SOCKET"@]
    } else {
        seq![]
    }) + (if fuzzel {
        seq!["FUZZEL"@]
    } else {
        seq![]
    }) + (if fork {
        seq!["FORK"@]
    } else {
        seq![]
    }) + (if activities {
        seq!["NIRI_ACTIVITIES"@]
    } else {
        seq![]
    })
}

/// The debug rendering of a flag set: `Capabilities(<A> | <B>)`, or
/// `Capabilities(0x0)` when no flag is set.
pub open spec fn flags_text(socket: bool, fuzzel: bool, fork: bool, activities: bool) -> Seq<char> {
    let names = set_flag_names(socket, fuzzel, fork, activities);
    "Capabilities("@ + (if names.len() == 0 {
        "0x0"@
    } else {
        join(names, " | "@)
    }) + ")"@
}

/// The debug rendering of `c`.
pub open spec fn caps_text(c: Capabilities) -> Seq<char> {
    flags_text(
        c.has(Flag::NiriSocket),
        c.has(Flag::Fuzzel),
        c.has(Flag::Fork),
        c.has(Flag::NiriActivities),
    )
}

impl Capabilities {
    /// The debug rendering: the set flags by name, `0x0` for none.
    pub fn debug_text(&self) -> (s: String)
        ensures
            s@ == caps_text(*self),
    {
        let mut names: Vec<String> = Vec::new();
        if self.has_flag(Flag::NiriSocket) {
            push_arg(&mut names, owned("NIRI_SOCKET"));
        }
        let ghost n1 = texts(names@);
        if self.has_flag(Flag::Fuzzel) {
            push_arg(&mut names, owned("FUZZEL"));
        }
        let ghost n2 = texts(names@);
        if self.has_flag(Flag::Fork) {
            push_arg(&mut names, owned("FORK"));
        }
        let ghost n3 = texts(names@);
        if self.has_flag(Flag::NiriActivities) {
            push_arg(&mut names, owned("NIRI_ACTIVITIES"));
        }
        assert(texts(names@) =~= set_flag_names(
            self.has(Flag::NiriSocket),
            self.has(Flag::Fuzzel),
            self.has(Flag::Fork),
            self.has(Flag::NiriActivities),
        ));
        let mut s = owned("Capabilities(");
        if names.len() == 0 {
            s.append("0x0");
        } else {
            let j = join_with(&names, " | ");
            s.append(j.as_str());
        }
        s.append(")");
        assert(s@ =~= caps_text(*self));
        s
    }
}

} // verus!
