//! What the proof benchmarks compute before they hand their inputs to a
//! proof system: the bits of a payload, and the walk of a point whose
//! coordinates are elements of the 64-bit prime field of order
//! 2^64 - 2^32 + 1.

use vstd::prelude::*;

verus! {

/// The order of the field.
pub const FIELD_ORDER: u64 = 0xFFFF_FFFF_0000_0001;

/// The bit that stands for a payload byte: set for the upper half of the bytes.
pub open spec fn bit_of(byte: u8) -> bool {
    byte > 127
}

/// One bit for each byte of the payload, in order.
pub fn payload_bits(payload: &Vec<u8>) -> (bits: Vec<bool>)
    ensures
        bits@.len() == payload@.len(),
        forall|i: int| 0 <= i < payload@.len() ==> bits@[i] == bit_of(#[trigger] payload@[i]),
{
    let mut bits: Vec<bool> = Vec::new();
    let mut i: usize = 0;
    while i < payload.len()
        invariant
            i <= payload@.len(),
            bits@.len() == i,
            forall|j: int| 0 <= j < i ==> bits@[j] == bit_of(#[trigger] payload@[j]),
        decreases payload@.len() - i,
    {
        bits.push(payload[i] > 127);
        i = i + 1;
    }
    bits
}

/// The sum of two field elements.
pub open spec fn field_add(a: nat, b: nat) -> nat {
    (a + b) % (FIELD_ORDER as nat)
}

/// Adds two field elements, each given by its least representative.
pub fn add_mod_order(a: u64, b: u64) -> (sum: u64)
    requires
        a < FIELD_ORDER,
        b < FIELD_ORDER,
    ensures
        sum == field_add(a as nat, b as nat),
        sum < FIELD_ORDER,
{
    let room: u64 = FIELD_ORDER - a;
    if b >= room {
        let sum: u64 = b - room;
        assert((a + b) % (FIELD_ORDER as int) == sum as int) by {
            vstd::arithmetic::div_mod::lemma_fundamental_div_mod_converse(
                a + b,
                FIELD_ORDER as int,
                1,
                sum as int,
            );
        }
        sum
    } else {
        let sum: u64 = a + b;
        assert((a + b) % (FIELD_ORDER as int) == sum as int) by {
            vstd::arithmetic::div_mod::lemma_small_mod((a + b) as nat, FIELD_ORDER as nat);
        }
        sum
    }
}

/// The six values that one step of the walk is proved on, in the order in
/// which the circuit makes them public.
#[derive(Clone, Copy, Debug, PartialEq, Eq, Structural)]
pub struct Witness {
    pub x: u64,
    pub y: u64,
    pub x_prime: u64,
    pub y_prime: u64,
    pub new_x: u64,
    pub new_y: u64,
}

/// A point of the walk as the contracts speak of it.
pub struct StateModel {
    pub proof: Option<Vec<u8>>,
    pub x: nat,
    pub y: nat,
}

/// A point of the walk, with the proof of the step that led to it.
pub struct State {
    proof: Option<Vec<u8>>,
    x: u64,
    y: u64,
}

impl View for State {
    type V = StateModel;

    closed spec fn view(&self) -> StateModel {
        StateModel { proof: self.proof, x: self.x as nat, y: self.y as nat }
    }
}

impl StateModel {
    /// Both coordinates are least representatives of field elements.
    pub open spec fn wf(self) -> bool {
        self.x < FIELD_ORDER && self.y < FIELD_ORDER
    }

    /// The values that the step by (`x_prime`, `y_prime`) is proved on.
    pub open spec fn witness(self, x_prime: u32, y_prime: u32) -> Witness {
        Witness {
            x: self.x as u64,
            y: self.y as u64,
            x_prime: x_prime as u64,
            y_prime: y_prime as u64,
            new_x: field_add(self.x, x_prime as nat) as u64,
            new_y: field_add(self.y, y_prime as nat) as u64,
        }
    }

    /// The point reached by the step by (`x_prime`, `y_prime`), carrying `proof`.
    pub open spec fn moved(self, x_prime: u32, y_prime: u32, proof: Vec<u8>) -> StateModel {
        StateModel {
            proof: Some(proof),
            x: field_add(self.x, x_prime as nat),
            y: field_add(self.y, y_prime as nat),
        }
    }
}

impl State {
    /// The point (`x`, `y`), with the proof that it was reached, if there is one.
    pub fn new(proof: Option<Vec<u8>>, x: u32, y: u32) -> (r: State)
        ensures
            r@ == (StateModel { proof, x: x as nat, y: y as nat }),
            r@.wf(),
    {
        State { proof, x: x as u64, y: y as u64 }
    }

    /// The values on which the step by (`x_prime`, `y_prime`) is to be proved.
    pub fn witness(&self, x_prime: u32, y_prime: u32) -> (w: Witness)
        requires
            self@.wf(),
        ensures
            w == self@.witness(x_prime, y_prime),
    {
        Witness {
            x: self.x,
            y: self.y,
            x_prime: x_prime as u64,
            y_prime: y_prime as u64,
            new_x: add_mod_order(self.x, x_prime as u64),
            new_y: add_mod_order(self.y, y_prime as u64),
        }
    }

    /// The point reached from this one by the step (`x_prime`, `y_prime`),
    /// carrying the proof of that step.
    pub fn move_by(&self, x_prime: u32, y_prime: u32, proof: Vec<u8>) -> (r: State)
        requires
            self@.wf(),
        ensures
            r@ == self@.moved(x_prime, y_prime, proof),
            r@.wf(),
    {
        State {
            proof: Some(proof),
            x: add_mod_order(self.x, x_prime as u64),
            y: add_mod_order(self.y, y_prime as u64),
        }
    }

    pub fn x(&self) -> (r: u64)
        ensures
            r == self@.x,
    {
        self.x
    }

    pub fn y(&self) -> (r: u64)
        ensures
            r == self@.y,
    {
        self.y
    }

    /// The proof of the step that led here; the starting point has none.
    pub fn proof_bytes(&self) -> (r: Option<&Vec<u8>>)
        ensures
            match self@.proof {
                Some(p) => r == Some(&p),
                None => r is None,
            },
    {
        self.proof.as_ref()
    }
}

/// Steps add up: two steps lead where the one step by their sum leads, as
/// long as the sums fit their type.
pub proof fn lemma_steps_add(x: nat, a: u32, b: u32)
    requires
        x < FIELD_ORDER,
    ensures
        field_add(field_add(x, a as nat), b as nat) == field_add(x, a as nat + b as nat),
{
    let p = FIELD_ORDER as int;
    vstd::arithmetic::div_mod::lemma_add_mod_noop((x + a) as int, b as int, p);
    vstd::arithmetic::div_mod::lemma_small_mod(b as nat, FIELD_ORDER as nat);
    assert((b as int) % p == b as int);
    assert((((x + a) as int) % p + (b as int)) % p == ((x + a) as int + b as int) % p);
}

} // verus!
