//! Entity identifiers as the protocol names them in messages.

use vstd::prelude::*;

verus! {

/// The bits of a valid entity: a 32-bit index below a generation that is at
/// least 1 and leaves the topmost (flag) bit clear.
pub open spec fn valid_entity_bits(bits: u64) -> bool {
    0x1_0000_0000 <= bits < 0x8000_0000_0000_0000
}

/// The index part of an entity's bits.
pub open spec fn entity_index(bits: u64) -> nat {
    (bits % 0x1_0000_0000) as nat
}

/// The generation part of an entity's bits.
pub open spec fn entity_generation(bits: u64) -> nat {
    (bits / 0x1_0000_0000) as nat
}

/// The bits of the placeholder entity: index `u32::MAX`, generation 1.
pub open spec fn placeholder_bits() -> u64 {
    0x1_FFFF_FFFF
}

/// The character of a decimal digit.
pub open spec fn digit_char(d: nat) -> char {
    (48 + d) as char
}

/// The decimal text of a natural number, without leading zeros.
pub open spec fn decimal(n: nat) -> Seq<char>
    decreases n,
{
    if n < 10 {
        seq![digit_char(n)]
    } else {
        decimal(n / 10).push(digit_char(n % 10))
    }
}

/// The number that a sequence of decimal digits denotes, most significant
/// digit first.
pub open spec fn digits_value(digits: Seq<char>) -> int
    decreases digits.len(),
{
    if digits.len() == 0 {
        0
    } else {
        digits_value(digits.drop_last()) * 10 + (digits.last() as int - 48)
    }
}

/// The decimal text of a number is made of decimal digits, has no leading
/// zero, and denotes the number.
pub proof fn lemma_decimal_denotes(n: nat)
    ensures
        decimal(n).len() >= 1,
        forall|k: int| 0 <= k < decimal(n).len() ==> 48 <= #[trigger] decimal(n)[k] as int <= 57,
        n >= 10 ==> decimal(n)[0] != '0',
        digits_value(decimal(n)) == n,
    decreases n,
{
    if n < 10 {
        assert(decimal(n) == seq![digit_char(n)]);
        assert(decimal(n).drop_last() =~= Seq::<char>::empty());
        assert(digit_char(n) as int == 48 + n);
        assert(digits_value(decimal(n).drop_last()) == 0);
    } else {
        lemma_decimal_denotes(n / 10);
        let d = decimal(n);
        assert(d == decimal(n / 10).push(digit_char(n % 10)));
        assert(d.drop_last() =~= decimal(n / 10));
        assert(d[0] == decimal(n / 10)[0]);
        assert(forall|k: int| 0 <= k < d.len() - 1 ==> d[k] == decimal(n / 10)[k]);
        assert((n / 10) * 10 + n % 10 == n);
        assert(digit_char(n % 10) as int == 48 + n % 10);
        if n / 10 < 10 {
            assert(decimal(n / 10) == seq![digit_char(n / 10)]);
        }
    }
}

/// How an entity is written in messages: `{index}v{generation}`, or
/// `PLACEHOLDER` for the placeholder entity.
pub open spec fn entity_text(bits: u64) -> Seq<char> {
    if bits == placeholder_bits() {
        "PLACEHOLDER"@
    } else {
        decimal(entity_index(bits)) + "v"@ + decimal(entity_generation(bits))
    }
}

/// How a valid entity is written: the placeholder entity as `PLACEHOLDER`, and
/// any other entity as the decimal digits of its index, a `v`, and the
/// decimal digits of its generation (the high 32 bits).
pub proof fn lemma_entity_text_shape(bits: u64)
    requires
        valid_entity_bits(bits),
    ensures
        bits == 0x1_FFFF_FFFF ==> entity_text(bits) == "PLACEHOLDER"@,
        entity_text(bits)[0] == 'P' <==> bits == 0x1_FFFF_FFFF,
        bits != 0x1_FFFF_FFFF ==> exists|a: int|
            #![trigger entity_text(bits).take(a)]
            {
                let t = entity_text(bits);
                &&& 0 < a < t.len() - 1
                &&& t[a] == 'v'
                &&& digits_value(t.take(a)) == bits % 0x1_0000_0000
                &&& digits_value(t.skip(a + 1)) == bits / 0x1_0000_0000
                &&& forall|k: int| 0 <= k < t.len() && k != a ==> 48 <= #[trigger] t[k] as int <= 57
            },
{
    reveal_strlit("PLACEHOLDER");
    reveal_strlit("v");
    if bits != 0x1_FFFF_FFFF {
        let i = decimal(entity_index(bits));
        let g = decimal(entity_generation(bits));
        lemma_decimal_denotes(entity_index(bits));
        lemma_decimal_denotes(entity_generation(bits));
        let t = entity_text(bits);
        assert(t == i + "v"@ + g);
        let a = i.len() as int;
        assert(t.take(a) =~= i);
        assert(t.skip(a + 1) =~= g);
        assert(t[a] == 'v');
        assert(t[0] == i[0]);
        assert forall|k: int| 0 <= k < t.len() && k != a implies 48 <= #[trigger] t[k] as int <= 57 by {
            if k < a {
                assert(t[k] == i[k]);
            } else {
                assert(t[k] == g[k - a - 1]);
            }
        }
        assert(t.take(a) == i);
    }
}

/// Renders an entity through bevy_ecs's `Display` for `Entity`
/// (`Entity::from_bits` followed by `to_string`).
/// Claimed: for valid bits, the text is `PLACEHOLDER` for the placeholder
/// entity and `{index}v{generation}` in decimal otherwise, which is what the
/// `Display` impl of bevy_ecs 0.15 writes. `from_bits` panics on bits that are
/// not those of an entity, which `requires` leaves out.
#[verifier::external_body]
fn render_entity(bits: u64) -> (text: String)
    requires
        valid_entity_bits(bits),
    ensures
        text@ == entity_text(bits),
{
    bevy_ecs::entity::Entity::from_bits(bits).to_string()
}

/// Lightweight identifier of an entity, held by its bits.
#[derive(Clone, Copy, Debug, PartialEq, Eq, Structural)]
pub struct Entity {
    bits: u64,
}

impl View for Entity {
    type V = u64;

    closed spec fn view(&self) -> u64 {
        self.bits
    }
}

impl Entity {
    #[verifier::type_invariant]
    pub(crate) closed spec fn well_formed(self) -> bool {
        valid_entity_bits(self.bits)
    }

    /// The entity with the given index and generation 1.
    pub fn from_raw(index: u32) -> (entity: Entity)
        ensures
            entity@ == 0x1_0000_0000 + index,
            entity_index(entity@) == index,
            entity_generation(entity@) == 1,
    {
        Entity { bits: 0x1_0000_0000 + index as u64 }
    }

    /// The entity whose bits these are, if they are those of an entity.
    pub fn try_from_bits(bits: u64) -> (entity: Option<Entity>)
        ensures
            entity is Some <==> valid_entity_bits(bits),
            entity is Some <==> 0x1_0000_0000 <= bits < 0x8000_0000_0000_0000,
            entity matches Some(e) ==> e@ == bits,
    {
        if 0x1_0000_0000 <= bits && bits < 0x8000_0000_0000_0000 {
            Some(Entity { bits })
        } else {
            None
        }
    }

    /// The bits of this entity.
    pub fn to_bits(&self) -> (bits: u64)
        ensures
            bits == self@,
            valid_entity_bits(bits),
    {
        proof {
            use_type_invariant(self);
        }
        self.bits
    }

    /// How this entity is written in messages.
    pub(crate) fn text(&self) -> (text: String)
        ensures
            text@ == entity_text(self@),
    {
        proof {
            use_type_invariant(self);
        }
        render_entity(self.bits)
    }
}

} // verus!
