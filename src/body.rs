//! Body budgeting: the parts a new creep of a role is spawned with, for the
//! energy the room can spend.

use vstd::prelude::*;
use crate::roles::Specialisation;

verus! {

/// The body parts the roles are built from.
#[derive(Clone, Copy, Debug, PartialEq, Eq, Structural)]
pub enum BodyPart {
    Move,
    Work,
    Carry,
}

impl BodyPart {
    pub open spec fn cost_spec(self) -> int {
        match self {
            BodyPart::Move => 50,
            BodyPart::Work => 100,
            BodyPart::Carry => 50,
        }
    }
}

/// Relies on screeps::Part::cost: the energy the game charges for a body part.
#[verifier::external_body]
fn part_cost(p: BodyPart) -> (r: u32)
    ensures
        r == p.cost_spec(),
{
    let part = match p {
        BodyPart::Move => screeps::Part::Move,
        BodyPart::Work => screeps::Part::Work,
        BodyPart::Carry => screeps::Part::Carry,
    };
    part.cost()
}

/// The energy a body costs.
pub open spec fn body_cost(s: Seq<BodyPart>) -> int
    decreases s.len(),
{
    if s.len() == 0 {
        0
    } else {
        body_cost(s.drop_last()) + s.last().cost_spec()
    }
}

/// `block` written `n` times over.
pub open spec fn repeat(block: Seq<BodyPart>, n: nat) -> Seq<BodyPart>
    decreases n,
{
    if n == 0 {
        seq![]
    } else {
        repeat(block, (n - 1) as nat) + block
    }
}

pub proof fn lemma_body_cost_append(a: Seq<BodyPart>, b: Seq<BodyPart>)
    ensures
        body_cost(a + b) == body_cost(a) + body_cost(b),
    decreases b.len(),
{
    if b.len() == 0 {
        assert(a + b =~= a);
    } else {
        assert((a + b).drop_last() =~= a + b.drop_last());
        lemma_body_cost_append(a, b.drop_last());
    }
}

pub proof fn lemma_repeat_cost(block: Seq<BodyPart>, n: nat)
    ensures
        body_cost(repeat(block, n)) == n * body_cost(block),
        repeat(block, n).len() == n * block.len(),
    decreases n,
{
    if n > 0 {
        let m = (n - 1) as nat;
        lemma_repeat_cost(block, m);
        lemma_body_cost_append(repeat(block, m), block);
        assert(repeat(block, n) == repeat(block, m) + block);
        let bc = body_cost(block);
        let bl = block.len() as int;
        assert(n * bc == m * bc + bc) by (nonlinear_arith)
            requires
                n == m + 1,
        ;
        assert(n * bl == m * bl + bl) by (nonlinear_arith)
            requires
                n == m + 1,
        ;
    } else {
        assert(repeat(block, n) =~= Seq::<BodyPart>::empty());
        assert(body_cost(Seq::<BodyPart>::empty()) == 0);
    }
}

/// The block a role's body repeats; the miner's is its fixed base.
pub open spec fn block_of(role: Specialisation) -> Seq<BodyPart> {
    match role {
        Specialisation::Hauler => seq![BodyPart::Move, BodyPart::Carry],
        Specialisation::Builder | Specialisation::Upgrader => seq![
            BodyPart::Move,
            BodyPart::Carry,
            BodyPart::Work,
            BodyPart::Work,
            BodyPart::Move,
            BodyPart::Move,
        ],
        Specialisation::Miner => seq![BodyPart::Move, BodyPart::Carry, BodyPart::Work],
        _ => seq![BodyPart::Move, BodyPart::Carry, BodyPart::Work, BodyPart::Move],
    }
}

/// What the miner adds to its base, one part at a time, while each still fits.
pub open spec fn miner_extras() -> Seq<BodyPart> {
    seq![
        BodyPart::Move,
        BodyPart::Carry,
        BodyPart::Work,
        BodyPart::Work,
        BodyPart::Move,
        BodyPart::Work,
        BodyPart::Work,
        BodyPart::Move,
        BodyPart::Work,
        BodyPart::Work,
        BodyPart::Move,
    ]
}

/// How many parts of `parts`, taken in order from the front, fit after `spent`.
pub open spec fn affordable_run(parts: Seq<BodyPart>, spent: int, budget: int) -> nat
    decreases parts.len(),
{
    if parts.len() == 0 {
        0
    } else if spent + parts[0].cost_spec() <= budget {
        1 + affordable_run(parts.drop_first(), spent + parts[0].cost_spec(), budget)
    } else {
        0
    }
}

/// How many move parts fit after `spent`.
pub open spec fn move_fill(spent: int, budget: int) -> nat {
    if budget >= spent {
        ((budget - spent) / 50) as nat
    } else {
        0
    }
}

/// The miner's body: its base, then as much of its wish list as fits, then
/// move parts for what is left.
pub open spec fn miner_body(budget: int) -> Seq<BodyPart> {
    let base = block_of(Specialisation::Miner);
    let k = affordable_run(miner_extras(), 200, budget);
    let with_extras = base + miner_extras().take(k as int);
    with_extras + repeat(seq![BodyPart::Move], move_fill(body_cost(with_extras), budget))
}

/// A repeating-block body: as many whole blocks as the budget buys, and one
/// block when it buys none.
pub open spec fn block_body(block: Seq<BodyPart>, budget: int) -> Seq<BodyPart> {
    let n = budget / body_cost(block);
    repeat(block, if n == 0 { 1 } else { n as nat })
}

/// The body a role is spawned with for `budget` energy.
pub open spec fn body_spec(role: Specialisation, budget: int) -> Seq<BodyPart> {
    if role == Specialisation::Miner {
        miner_body(budget)
    } else {
        block_body(block_of(role), budget)
    }
}

/// The smallest body a role is ever spawned with.
pub open spec fn minimum_cost(role: Specialisation) -> int {
    body_cost(block_of(role))
}

fn block_parts(role: Specialisation) -> (r: Vec<BodyPart>)
    ensures
        r@ == block_of(role),
{
    match role {
        Specialisation::Hauler => vec![BodyPart::Move, BodyPart::Carry],
        Specialisation::Builder | Specialisation::Upgrader => vec![
            BodyPart::Move,
            BodyPart::Carry,
            BodyPart::Work,
            BodyPart::Work,
            BodyPart::Move,
            BodyPart::Move,
        ],
        Specialisation::Miner => vec![BodyPart::Move, BodyPart::Carry, BodyPart::Work],
        _ => vec![BodyPart::Move, BodyPart::Carry, BodyPart::Work, BodyPart::Move],
    }
}

/// Appends `parts` to `body`.
fn push_all(body: &mut Vec<BodyPart>, parts: &Vec<BodyPart>)
    ensures
        final(body)@ == old(body)@ + parts@,
{
    let mut j: usize = 0;
    while j < parts.len()
        invariant
            j <= parts@.len(),
            body@ == old(body)@ + parts@.take(j as int),
        decreases parts.len() - j,
    {
        assert(old(body)@ + parts@.take(j + 1) =~= old(body)@ + parts@.take(j as int) + seq![
            parts@[j as int],
        ]);
        body.push(parts[j]);
        j = j + 1;
    }
    assert(parts@.take(parts@.len() as int) =~= parts@);
}

fn extras_parts() -> (r: Vec<BodyPart>)
    ensures
        r@ == miner_extras(),
{
    vec![
        BodyPart::Move,
        BodyPart::Carry,
        BodyPart::Work,
        BodyPart::Work,
        BodyPart::Move,
        BodyPart::Work,
        BodyPart::Work,
        BodyPart::Move,
        BodyPart::Work,
        BodyPart::Work,
        BodyPart::Move,
    ]
}

proof fn lemma_cost_push(s: Seq<BodyPart>, p: BodyPart)
    ensures
        body_cost(s.push(p)) == body_cost(s) + p.cost_spec(),
{
    assert(s.push(p).drop_last() =~= s);
}

/// What one block of a role costs.
pub open spec fn block_cost_of(role: Specialisation) -> int {
    match role {
        Specialisation::Hauler => 100,
        Specialisation::Builder | Specialisation::Upgrader => 400,
        Specialisation::Miner => 200,
        _ => 250,
    }
}

proof fn lemma_block_cost(role: Specialisation)
    ensures
        body_cost(block_of(role)) == block_cost_of(role),
        1 <= block_of(role).len() <= 6,
{
    let b = block_of(role);
    reveal_with_fuel(body_cost, 7);
    if role == Specialisation::Hauler {
        assert(b.drop_last() =~= seq![BodyPart::Move]);
        assert(b.drop_last().drop_last() =~= Seq::<BodyPart>::empty());
    } else if role == Specialisation::Builder || role == Specialisation::Upgrader {
        assert(b.drop_last() =~= seq![
            BodyPart::Move,
            BodyPart::Carry,
            BodyPart::Work,
            BodyPart::Work,
            BodyPart::Move,
        ]);
        assert(b.drop_last().drop_last() =~= seq![
            BodyPart::Move,
            BodyPart::Carry,
            BodyPart::Work,
            BodyPart::Work,
        ]);
        assert(b.drop_last().drop_last().drop_last() =~= seq![
            BodyPart::Move,
            BodyPart::Carry,
            BodyPart::Work,
        ]);
        assert(b.drop_last().drop_last().drop_last().drop_last() =~= seq![
            BodyPart::Move,
            BodyPart::Carry,
        ]);
        assert(b.drop_last().drop_last().drop_last().drop_last().drop_last() =~= seq![
            BodyPart::Move,
        ]);
        assert(b.drop_last().drop_last().drop_last().drop_last().drop_last().drop_last()
            =~= Seq::<BodyPart>::empty());
    } else if role == Specialisation::Miner {
        assert(b.drop_last() =~= seq![BodyPart::Move, BodyPart::Carry]);
        assert(b.drop_last().drop_last() =~= seq![BodyPart::Move]);
        assert(b.drop_last().drop_last().drop_last() =~= Seq::<BodyPart>::empty());
    } else {
        assert(b.drop_last() =~= seq![BodyPart::Move, BodyPart::Carry, BodyPart::Work]);
        assert(b.drop_last().drop_last() =~= seq![BodyPart::Move, BodyPart::Carry]);
        assert(b.drop_last().drop_last().drop_last() =~= seq![BodyPart::Move]);
        assert(b.drop_last().drop_last().drop_last().drop_last() =~= Seq::<BodyPart>::empty());
    }
}

/// Whole blocks while they fit, at least one.
fn block_loadout(role: Specialisation, budget: u128) -> (r: Vec<BodyPart>)
    requires
        role != Specialisation::Miner,
    ensures
        r@ == block_body(block_of(role), budget as int),
{
    let block = block_parts(role);
    proof {
        lemma_block_cost(role);
    }
    let bc = loadout_cost(&block);
    let mut body: Vec<BodyPart> = Vec::new();
    let mut cost: u128 = 0;
    let mut n: u128 = 0;
    assert(body@ =~= repeat(block@, 0));
    while budget - cost >= bc
        invariant
            block@ == block_of(role),
            bc == body_cost(block@),
            50 <= bc <= 400,
            body@ == repeat(block@, n as nat),
            cost == n * bc,
            cost <= budget,
            n <= cost,
        decreases budget - cost,
    {
        assert(n <= n * bc) by (nonlinear_arith)
            requires
                bc >= 1,
        ;
        push_all(&mut body, &block);
        assert(n * bc + bc == (n + 1) * bc) by (nonlinear_arith);
        cost = cost + bc;
        n = n + 1;
    }
    proof {
        vstd::arithmetic::div_mod::lemma_fundamental_div_mod_converse(
            budget as int,
            bc as int,
            n as int,
            (budget - cost) as int,
        );
    }
    if n == 0 {
        push_all(&mut body, &block);
        assert(body@ =~= repeat(block@, 1));
    }
    body
}

proof fn lemma_run_step(parts: Seq<BodyPart>, j: int, spent: int, budget: int)
    requires
        0 <= j < parts.len(),
        spent + parts[j].cost_spec() <= budget,
    ensures
        affordable_run(parts.skip(j), spent, budget) == 1 + affordable_run(
            parts.skip(j + 1),
            spent + parts[j].cost_spec(),
            budget,
        ),
{
    assert(parts.skip(j).drop_first() =~= parts.skip(j + 1));
    assert(parts.skip(j)[0] == parts[j]);
}

/// The miner's base, then its wish list in order while each part fits, then
/// move parts for the rest.
fn miner_loadout(budget: u128) -> (r: Vec<BodyPart>)
    ensures
        r@ == miner_body(budget as int),
{
    let mut body = block_parts(Specialisation::Miner);
    let mut cost = loadout_cost(&body);
    let ghost base = body@;
    proof {
        lemma_block_cost(Specialisation::Miner);
    }
    let extras = extras_parts();
    let mut j: usize = 0;
    assert(extras@.skip(0) =~= extras@);
    assert(base + extras@.take(0) =~= base);
    while j < extras.len() && cost <= budget && budget - cost >= part_cost(extras[j]) as u128
        invariant
            extras@ == miner_extras(),
            base == block_of(Specialisation::Miner),
            body_cost(base) == 200,
            j <= extras@.len(),
            body@ == base + extras@.take(j as int),
            cost == body_cost(body@),
            cost <= 200 + 100 * j,
            j + affordable_run(extras@.skip(j as int), cost as int, budget as int)
                == affordable_run(extras@, 200, budget as int),
        decreases extras@.len() - j,
    {
        let p = extras[j];
        let c = part_cost(p);
        proof {
            lemma_run_step(extras@, j as int, cost as int, budget as int);
            lemma_cost_push(body@, p);
            assert(base + extras@.take(j + 1) =~= (base + extras@.take(j as int)).push(p));
        }
        body.push(p);
        cost = cost + c as u128;
        j = j + 1;
    }
    proof {
        if j < extras.len() {
            assert(extras@.skip(j as int)[0] == extras@[j as int]);
        } else {
            assert(extras@.skip(j as int).len() == 0);
        }
    }
    let ghost with_extras = body@;
    let ghost c1 = cost;
    let mut t: u128 = 0;
    assert(with_extras + repeat(seq![BodyPart::Move], 0) =~= with_extras);
    while cost <= budget && budget - cost >= 50
        invariant
            body@ == with_extras + repeat(seq![BodyPart::Move], t as nat),
            cost == c1 + 50 * t,
            c1 <= budget ==> cost <= budget,
            c1 > budget ==> t == 0,
            c1 <= 200 + 1100,
        decreases budget - cost,
    {
        assert(repeat(seq![BodyPart::Move], (t + 1) as nat) == repeat(
            seq![BodyPart::Move],
            t as nat,
        ) + seq![BodyPart::Move]);
        assert(with_extras + repeat(seq![BodyPart::Move], (t + 1) as nat) =~= (with_extras
            + repeat(seq![BodyPart::Move], t as nat)).push(BodyPart::Move));
        let c = part_cost(BodyPart::Move);
        body.push(BodyPart::Move);
        cost = cost + c as u128;
        t = t + 1;
    }
    proof {
        if c1 <= budget {
            vstd::arithmetic::div_mod::lemma_fundamental_div_mod_converse(
                budget - c1,
                50,
                t as int,
                (budget - cost) as int,
            );
        }
    }
    body
}

/// The body a new creep of `role` gets for `budget` energy: for the miner its
/// base and wish list; for the other roles whole blocks.
pub fn get_best_worker_body(role: Specialisation, budget: u128) -> (r: Vec<BodyPart>)
    ensures
        r@ == body_spec(role, budget as int),
{
    if role == Specialisation::Miner {
        miner_loadout(budget)
    } else {
        block_loadout(role, budget)
    }
}

/// What a body costs in total.
pub fn loadout_cost(body: &Vec<BodyPart>) -> (r: u128)
    ensures
        r == body_cost(body@),
{
    let mut c: u128 = 0;
    let mut j: usize = 0;
    let len = body.len();
    while j < len
        invariant
            len == body@.len(),
            j <= len,
            c == body_cost(body@.take(j as int)),
            c <= 100 * j,
        decreases body.len() - j,
    {
        assert(body@.take(j + 1).drop_last() =~= body@.take(j as int));
        c = c + part_cost(body[j]) as u128;
        j = j + 1;
    }
    assert(body@.take(body@.len() as int) =~= body@);
    c
}

proof fn lemma_affordable_run_fits(parts: Seq<BodyPart>, spent: int, budget: int)
    requires
        spent <= budget,
    ensures
        affordable_run(parts, spent, budget) <= parts.len(),
        spent + body_cost(parts.take(affordable_run(parts, spent, budget) as int)) <= budget,
    decreases parts.len(),
{
    let k = affordable_run(parts, spent, budget);
    if k == 0 {
        assert(parts.take(0) =~= Seq::<BodyPart>::empty());
        assert(body_cost(Seq::<BodyPart>::empty()) == 0);
    } else {
        let p = parts[0];
        let rest = parts.drop_first();
        lemma_affordable_run_fits(rest, spent + p.cost_spec(), budget);
        assert(parts.take(k as int) =~= seq![p] + rest.take(k - 1));
        lemma_body_cost_append(seq![p], rest.take(k - 1));
        assert(seq![p].drop_last() =~= Seq::<BodyPart>::empty());
        assert(body_cost(Seq::<BodyPart>::empty()) == 0);
        assert(body_cost(seq![p]) == p.cost_spec());
    }
}

/// A body never costs more than the budget it was sized for, once the budget
/// pays for the role's smallest body; and it is never empty.
pub proof fn lemma_loadout_within_budget(role: Specialisation, budget: int)
    requires
        budget >= block_cost_of(role),
    ensures
        body_cost(body_spec(role, budget)) <= budget,
        body_spec(role, budget).len() > 0,
{
    lemma_block_cost(role);
    if role == Specialisation::Miner {
        let base = block_of(Specialisation::Miner);
        let k = affordable_run(miner_extras(), 200, budget);
        lemma_affordable_run_fits(miner_extras(), 200, budget);
        let with_extras = base + miner_extras().take(k as int);
        lemma_body_cost_append(base, miner_extras().take(k as int));
        let c1 = body_cost(with_extras);
        let t = move_fill(c1, budget);
        lemma_repeat_cost(seq![BodyPart::Move], t);
        assert(seq![BodyPart::Move].drop_last() =~= Seq::<BodyPart>::empty());
        assert(body_cost(Seq::<BodyPart>::empty()) == 0);
        assert(body_cost(seq![BodyPart::Move]) == 50);
        lemma_body_cost_append(with_extras, repeat(seq![BodyPart::Move], t));
        assert(c1 <= budget);
        vstd::arithmetic::div_mod::lemma_fundamental_div_mod(budget - c1, 50);
        vstd::arithmetic::div_mod::lemma_mod_pos_bound(budget - c1, 50);
        assert(t * 50 <= budget - c1);
        assert(body_spec(role, budget) == with_extras + repeat(seq![BodyPart::Move], t));
    } else {
        let block = block_of(role);
        let bc = block_cost_of(role);
        let n = budget / bc;
        vstd::arithmetic::div_mod::lemma_fundamental_div_mod(budget, bc);
        vstd::arithmetic::div_mod::lemma_mod_pos_bound(budget, bc);
        assert(n >= 1) by (nonlinear_arith)
            requires
                budget == bc * n + budget % bc,
                0 <= budget % bc < bc,
                budget >= bc,
        ;
        lemma_repeat_cost(block, n as nat);
        assert(n * bc == bc * n) by (nonlinear_arith);
        assert(n * block.len() >= 1) by (nonlinear_arith)
            requires
                n >= 1,
                block.len() >= 1,
        ;
    }
}

/// A repeating-block role given exactly one block's cost gets exactly one block.
pub proof fn lemma_one_block_budget(role: Specialisation)
    requires
        role != Specialisation::Miner,
    ensures
        body_spec(role, block_cost_of(role)) == block_of(role),
{
    lemma_block_cost(role);
    let bc = block_cost_of(role);
    assert(bc / bc == 1);
    assert(repeat(block_of(role), 1) == repeat(block_of(role), 0) + block_of(role));
    assert(repeat(block_of(role), 1) =~= block_of(role));
}

} // verus!
