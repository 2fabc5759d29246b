//! The DX7 algorithm library as carrier lists and modulation edges: the 32
//! factory algorithms and three extra ones, and their carrier masks and link
//! matrices.
use vstd::prelude::*;

verus! {

/// Builds the algorithm library.
pub struct AlgorithmMigrator;

/// One algorithm of the library: operators numbered 1..6, `(from, to)` edges
/// where `from` modulates `to` (`from == to` is feedback).
#[derive(Debug, Clone)]
pub struct AlgorithmDefinition {
    pub number: u8,
    pub name: &'static str,
    pub carriers: Vec<u8>,
    pub connections: Vec<(u8, u8)>,
}

/// Number of algorithms in the library.
pub const LIBRARY_SIZE: u8 = 35;

/// The carriers of library algorithm `n` (1..35).
pub open spec fn library_carriers(n: u8) -> Seq<u8> {
    if n == 1 || n == 2 { seq![1u8, 3u8] }
    else if n == 3 || n == 4 || n == 14 || n == 28 || n == 33 { seq![1u8, 4u8] }
    else if n == 5 || n == 6 || n == 26 { seq![1u8, 3u8, 5u8] }
    else if n == 18 { seq![1u8, 2u8, 3u8, 4u8, 5u8, 6u8] }
    else if n == 19 { seq![1u8, 2u8, 3u8] }
    else if n == 20 || n == 21 || n == 27 || n == 35 { seq![1u8, 2u8] }
    else if n == 22 || n == 23 { seq![1u8, 2u8, 3u8, 4u8] }
    else if n == 24 || n == 25 { seq![1u8, 2u8, 3u8, 4u8, 5u8] }
    else if n == 29 || n == 30 { seq![1u8, 2u8, 5u8] }
    else { seq![1u8] }
}

/// The modulation edges of library algorithm `n` (1..35).
pub open spec fn library_connections(n: u8) -> Seq<(u8, u8)> {
    if n == 1 { seq![(2u8, 1u8), (4, 3), (5, 4), (6, 5), (6, 6)] }
    else if n == 2 { seq![(2u8, 1u8), (4, 3), (5, 4), (6, 5), (2, 2)] }
    else if n == 3 { seq![(2u8, 1u8), (3, 2), (5, 4), (6, 5), (6, 6)] }
    else if n == 4 { seq![(2u8, 1u8), (3, 2), (5, 4), (6, 5), (4, 6)] }
    else if n == 5 { seq![(2u8, 1u8), (4, 3), (6, 5), (6, 6)] }
    else if n == 6 { seq![(2u8, 1u8), (4, 3), (6, 5), (5, 6)] }
    else if n == 7 { seq![(2u8, 1u8), (3, 2), (4, 3), (5, 3), (6, 5), (6, 6)] }
    else if n == 8 { seq![(2u8, 1u8), (3, 2), (4, 3), (5, 3), (6, 5), (4, 4)] }
    else if n == 9 { seq![(2u8, 1u8), (3, 1), (4, 3), (5, 4), (6, 5), (6, 6)] }
    else if n == 10 { seq![(2u8, 1u8), (3, 1), (4, 3), (5, 4), (6, 4), (5, 5)] }
    else if n == 11 { seq![(2u8, 1u8), (3, 1), (4, 1), (5, 4), (6, 5), (6, 6)] }
    else if n == 12 { seq![(2u8, 1u8), (3, 1), (4, 1), (5, 4), (6, 5), (3, 6)] }
    else if n == 13 { seq![(2u8, 1u8), (3, 1), (4, 1), (5, 1), (6, 1), (6, 6)] }
    else if n == 14 { seq![(2u8, 1u8), (3, 1), (5, 4), (6, 4), (6, 6)] }
    else if n == 15 { seq![(2u8, 1u8), (3, 2), (4, 2), (5, 4), (6, 5), (2, 2)] }
    else if n == 16 { seq![(2u8, 1u8), (3, 2), (4, 2), (5, 2), (6, 5), (6, 6)] }
    else if n == 17 { seq![(2u8, 1u8), (3, 2), (4, 2), (5, 1), (6, 5), (2, 2)] }
    else if n == 18 { seq![(6u8, 6u8)] }
    else if n == 19 { seq![(4u8, 1u8), (5, 2), (6, 3), (6, 6)] }
    else if n == 20 { seq![(3u8, 1u8), (4, 1), (5, 2), (6, 2), (3, 3)] }
    else if n == 21 { seq![(3u8, 1u8), (4, 2), (5, 2), (6, 2), (4, 4)] }
    else if n == 22 { seq![(5u8, 1u8), (6, 2), (6, 6)] }
    else if n == 23 { seq![(5u8, 3u8), (6, 4), (5, 5)] }
    else if n == 24 { seq![(6u8, 3u8), (6, 6)] }
    else if n == 25 { seq![(6u8, 5u8), (6, 6)] }
    else if n == 26 { seq![(2u8, 1u8), (4, 3), (6, 5), (4, 4)] }
    else if n == 27 { seq![(3u8, 2u8), (4, 3), (5, 4), (6, 5), (3, 3)] }
    else if n == 28 { seq![(2u8, 1u8), (3, 1), (5, 4), (6, 4), (6, 6)] }
    else if n == 29 { seq![(3u8, 1u8), (4, 2), (6, 5), (5, 5)] }
    else if n == 30 { seq![(3u8, 1u8), (4, 2), (6, 5), (4, 4)] }
    else if n == 31 { seq![(2u8, 1u8), (3, 1), (4, 2), (5, 2), (6, 1), (6, 6)] }
    else if n == 32 { seq![(2u8, 1u8), (3, 2), (4, 3), (5, 4), (6, 5), (6, 6)] }
    else if n == 33 { seq![(2u8, 1u8), (3, 2), (5, 4), (6, 5), (2, 2), (5, 5)] }
    else if n == 34 { seq![(2u8, 1u8), (3, 1), (4, 2), (5, 3), (6, 4)] }
    else { seq![(3u8, 1u8), (4, 2), (5, 3), (6, 4), (1, 6), (2, 5)] }
}

/// The display name of library algorithm `n` (1..35): its number, a colon
/// and its title.
pub open spec fn library_name(n: u8) -> Seq<char> {
    if n == 1 { "1: Two Stacks"@ }
    else if n == 2 { "2: Stack + Self"@ }
    else if n == 3 { "3: Dual Stacks"@ }
    else if n == 4 { "4: Stack Loop"@ }
    else if n == 5 { "5: Three Carriers"@ }
    else if n == 6 { "6: Three + Feedback"@ }
    else if n == 7 { "7: Wide Stack"@ }
    else if n == 8 { "8: Double Feedback"@ }
    else if n == 9 { "9: Dual Branch"@ }
    else if n == 10 { "10: Split Branch"@ }
    else if n == 11 { "11: Three Mod"@ }
    else if n == 12 { "12: Three + Loop"@ }
    else if n == 13 { "13: All to One"@ }
    else if n == 14 { "14: Dual + Three"@ }
    else if n == 15 { "15: Branch + Self"@ }
    else if n == 16 { "16: Complex Tree"@ }
    else if n == 17 { "17: Split + Self"@ }
    else if n == 18 { "18: All Carriers"@ }
    else if n == 19 { "19: Triple + Tree"@ }
    else if n == 20 { "20: Three Pairs"@ }
    else if n == 21 { "21: Two + Four"@ }
    else if n == 22 { "22: Four Carriers"@ }
    else if n == 23 { "23: Four + Dual"@ }
    else if n == 24 { "24: Five Carriers"@ }
    else if n == 25 { "25: Five Simple"@ }
    else if n == 26 { "26: Three Two-Op"@ }
    else if n == 27 { "27: One Four-Op"@ }
    else if n == 28 { "28: Bass Heavy"@ }
    else if n == 29 { "29: Wide Three"@ }
    else if n == 30 { "30: Saw-like"@ }
    else if n == 31 { "31: Organ"@ }
    else if n == 32 { "32: Full Stack"@ }
    else if n == 33 { "33: Dual Feedback"@ }
    else if n == 34 { "34: Ring Mod"@ }
    else { "35: Chaos FM"@ }
}

/// Every algorithm of the library has a carrier, and names only operators
/// 1..6 in its carriers and edges.
pub proof fn lemma_library_operators_in_range(n: u8)
    requires
        1 <= n <= LIBRARY_SIZE,
    ensures
        library_carriers(n).len() > 0,
        forall|k: int| 0 <= k < library_carriers(n).len() ==> 1 <= #[trigger] library_carriers(n)[k] <= 6,
        forall|k: int|
            0 <= k < library_connections(n).len() ==> {
                let e = #[trigger] library_connections(n)[k];
                1 <= e.0 <= 6 && 1 <= e.1 <= 6
            },
{
}

/// Library algorithm `n` (1..35).
fn definition(n: u8) -> (d: AlgorithmDefinition)
    requires
        1 <= n <= LIBRARY_SIZE,
    ensures
        d.number == n,
        d.name@ == library_name(n),
        d.carriers@ == library_carriers(n),
        d.connections@ == library_connections(n),
{
    let (name, carriers, connections): (&'static str, Vec<u8>, Vec<(u8, u8)>) = match n {
        1 => ("1: Two Stacks", vec![1, 3], vec![(2, 1), (4, 3), (5, 4), (6, 5), (6, 6)]),
        2 => ("2: Stack + Self", vec![1, 3], vec![(2, 1), (4, 3), (5, 4), (6, 5), (2, 2)]),
        3 => ("3: Dual Stacks", vec![1, 4], vec![(2, 1), (3, 2), (5, 4), (6, 5), (6, 6)]),
        4 => ("4: Stack Loop", vec![1, 4], vec![(2, 1), (3, 2), (5, 4), (6, 5), (4, 6)]),
        5 => ("5: Three Carriers", vec![1, 3, 5], vec![(2, 1), (4, 3), (6, 5), (6, 6)]),
        6 => ("6: Three + Feedback", vec![1, 3, 5], vec![(2, 1), (4, 3), (6, 5), (5, 6)]),
        7 => ("7: Wide Stack", vec![1], vec![(2, 1), (3, 2), (4, 3), (5, 3), (6, 5), (6, 6)]),
        8 => ("8: Double Feedback", vec![1], vec![(2, 1), (3, 2), (4, 3), (5, 3), (6, 5), (4, 4)]),
        9 => ("9: Dual Branch", vec![1], vec![(2, 1), (3, 1), (4, 3), (5, 4), (6, 5), (6, 6)]),
        10 => ("10: Split Branch", vec![1], vec![(2, 1), (3, 1), (4, 3), (5, 4), (6, 4), (5, 5)]),
        11 => ("11: Three Mod", vec![1], vec![(2, 1), (3, 1), (4, 1), (5, 4), (6, 5), (6, 6)]),
        12 => ("12: Three + Loop", vec![1], vec![(2, 1), (3, 1), (4, 1), (5, 4), (6, 5), (3, 6)]),
        13 => ("13: All to One", vec![1], vec![(2, 1), (3, 1), (4, 1), (5, 1), (6, 1), (6, 6)]),
        14 => ("14: Dual + Three", vec![1, 4], vec![(2, 1), (3, 1), (5, 4), (6, 4), (6, 6)]),
        15 => ("15: Branch + Self", vec![1], vec![(2, 1), (3, 2), (4, 2), (5, 4), (6, 5), (2, 2)]),
        16 => ("16: Complex Tree", vec![1], vec![(2, 1), (3, 2), (4, 2), (5, 2), (6, 5), (6, 6)]),
        17 => ("17: Split + Self", vec![1], vec![(2, 1), (3, 2), (4, 2), (5, 1), (6, 5), (2, 2)]),
        18 => ("18: All Carriers", vec![1, 2, 3, 4, 5, 6], vec![(6, 6)]),
        19 => ("19: Triple + Tree", vec![1, 2, 3], vec![(4, 1), (5, 2), (6, 3), (6, 6)]),
        20 => ("20: Three Pairs", vec![1, 2], vec![(3, 1), (4, 1), (5, 2), (6, 2), (3, 3)]),
        21 => ("21: Two + Four", vec![1, 2], vec![(3, 1), (4, 2), (5, 2), (6, 2), (4, 4)]),
        22 => ("22: Four Carriers", vec![1, 2, 3, 4], vec![(5, 1), (6, 2), (6, 6)]),
        23 => ("23: Four + Dual", vec![1, 2, 3, 4], vec![(5, 3), (6, 4), (5, 5)]),
        24 => ("24: Five Carriers", vec![1, 2, 3, 4, 5], vec![(6, 3), (6, 6)]),
        25 => ("25: Five Simple", vec![1, 2, 3, 4, 5], vec![(6, 5), (6, 6)]),
        26 => ("26: Three Two-Op", vec![1, 3, 5], vec![(2, 1), (4, 3), (6, 5), (4, 4)]),
        27 => ("27: One Four-Op", vec![1, 2], vec![(3, 2), (4, 3), (5, 4), (6, 5), (3, 3)]),
        28 => ("28: Bass Heavy", vec![1, 4], vec![(2, 1), (3, 1), (5, 4), (6, 4), (6, 6)]),
        29 => ("29: Wide Three", vec![1, 2, 5], vec![(3, 1), (4, 2), (6, 5), (5, 5)]),
        30 => ("30: Saw-like", vec![1, 2, 5], vec![(3, 1), (4, 2), (6, 5), (4, 4)]),
        31 => ("31: Organ", vec![1], vec![(2, 1), (3, 1), (4, 2), (5, 2), (6, 1), (6, 6)]),
        32 => ("32: Full Stack", vec![1], vec![(2, 1), (3, 2), (4, 3), (5, 4), (6, 5), (6, 6)]),
        33 => ("33: Dual Feedback", vec![1, 4], vec![(2, 1), (3, 2), (5, 4), (6, 5), (2, 2), (5, 5)]),
        34 => ("34: Ring Mod", vec![1], vec![(2, 1), (3, 1), (4, 2), (5, 3), (6, 4)]),
        _ => ("35: Chaos FM", vec![1, 2], vec![(3, 1), (4, 2), (5, 3), (6, 4), (1, 6), (2, 5)]),
    };
    assert(carriers@ =~= library_carriers(n));
    assert(connections@ =~= library_connections(n));
    AlgorithmDefinition { number: n, name, carriers, connections }
}

impl AlgorithmMigrator {
    /// The whole library, algorithm 1 first.
    pub fn create_full_dx7_library() -> (library: Vec<AlgorithmDefinition>)
        ensures
            library@.len() == LIBRARY_SIZE,
            forall|i: int|
                0 <= i < LIBRARY_SIZE ==> {
                    let d = #[trigger] library@[i];
                    &&& d.number == i + 1
                    &&& d.name@ == library_name((i + 1) as u8)
                    &&& d.carriers@ == library_carriers((i + 1) as u8)
                    &&& d.connections@ == library_connections((i + 1) as u8)
                },
    {
        let mut library: Vec<AlgorithmDefinition> = Vec::new();
        let mut n: u8 = 1;
        while n <= LIBRARY_SIZE
            invariant
                1 <= n <= LIBRARY_SIZE + 1,
                library@.len() == n - 1,
                forall|i: int|
                    0 <= i < n - 1 ==> {
                        let d = #[trigger] library@[i];
                        &&& d.number == i + 1
                        &&& d.name@ == library_name((i + 1) as u8)
                        &&& d.carriers@ == library_carriers((i + 1) as u8)
                        &&& d.connections@ == library_connections((i + 1) as u8)
                    },
            decreases LIBRARY_SIZE + 1 - n,
        {
            library.push(definition(n));
            n = n + 1;
        }
        library
    }
}

/// Which operators (index 0 = operator 1) a carrier list names; numbers
/// outside 1..6 are ignored.
pub fn carrier_mask(carriers: &[u8]) -> (mask: [bool; 6])
    ensures
        forall|i: int| 0 <= i < 6 ==> #[trigger] mask@[i] == carriers@.contains((i + 1) as u8),
{
    let mut mask = [false; 6];
    let mut k: usize = 0;
    while k < carriers.len()
        invariant
            k <= carriers@.len(),
            forall|i: int| 0 <= i < 6 ==> #[trigger] mask@[i] == carriers@.take(k as int).contains((i + 1) as u8),
        decreases carriers.len() - k,
    {
        let c = carriers[k];
        if 1 <= c && c <= 6 {
            mask.set((c - 1) as usize, true);
        }
        proof {
            assert forall|i: int| 0 <= i < 6 implies #[trigger] mask@[i] == carriers@.take(k + 1).contains((i + 1) as u8) by {
                let prefix = carriers@.take(k as int);
                assert(carriers@.take(k + 1) =~= prefix.push(c));
                if prefix.contains((i + 1) as u8) {
                    let j = choose|j: int| 0 <= j < prefix.len() && prefix[j] == (i + 1) as u8;
                    assert(prefix.push(c)[j] == (i + 1) as u8);
                }
                if prefix.push(c).contains((i + 1) as u8) {
                    let j = choose|j: int| 0 <= j < prefix.len() + 1 && prefix.push(c)[j] == (i + 1) as u8;
                    if j < prefix.len() {
                        assert(prefix[j] == (i + 1) as u8);
                    }
                }
                assert(prefix.push(c)[prefix.len() as int] == c);
            }
        }
        k = k + 1;
    }
    assert(carriers@.take(carriers@.len() as int) =~= carriers@);
    mask
}


/// Which operators (index 0 = operator 1) operator `from` modulates under the
/// edges `connections`.
fn links_from(connections: &[(u8, u8)], from: u8) -> (row: [bool; 6])
    ensures
        forall|t: int| 0 <= t < 6 ==> #[trigger] row@[t] == connections@.contains((from, (t + 1) as u8)),
{
    let mut row = [false; 6];
    let mut k: usize = 0;
    while k < connections.len()
        invariant
            k <= connections@.len(),
            forall|t: int|
                0 <= t < 6 ==> #[trigger] row@[t] == connections@.take(k as int).contains((from, (t + 1) as u8)),
        decreases connections.len() - k,
    {
        let (f, to) = connections[k];
        if f == from && 1 <= to && to <= 6 {
            row.set((to - 1) as usize, true);
        }
        proof {
            let e = connections@[k as int];
            assert forall|t: int| 0 <= t < 6 implies #[trigger] row@[t] == connections@.take(k + 1).contains((from, (t + 1) as u8)) by {
                let prefix = connections@.take(k as int);
                let x = (from, (t + 1) as u8);
                assert(connections@.take(k + 1) =~= prefix.push(e));
                if prefix.contains(x) {
                    let j = choose|j: int| 0 <= j < prefix.len() && prefix[j] == x;
                    assert(prefix.push(e)[j] == x);
                }
                if prefix.push(e).contains(x) {
                    let j = choose|j: int| 0 <= j < prefix.len() + 1 && prefix.push(e)[j] == x;
                    if j < prefix.len() {
                        assert(prefix[j] == x);
                    }
                }
                assert(prefix.push(e)[prefix.len() as int] == e);
            }
        }
        k = k + 1;
    }
    assert(connections@.take(connections@.len() as int) =~= connections@);
    row
}

/// The 6x6 link matrix of an edge list: `links[f][t]` holds when operator
/// `f + 1` modulates operator `t + 1`; edges outside 1..6 are ignored.
pub fn link_matrix(connections: &[(u8, u8)]) -> (links: [[bool; 6]; 6])
    ensures
        forall|f: int, t: int|
            0 <= f < 6 && 0 <= t < 6 ==> #[trigger] links@[f]@[t] == connections@.contains(
                ((f + 1) as u8, (t + 1) as u8),
            ),
{
    let r0 = links_from(connections, 1);
    let r1 = links_from(connections, 2);
    let r2 = links_from(connections, 3);
    let r3 = links_from(connections, 4);
    let r4 = links_from(connections, 5);
    let r5 = links_from(connections, 6);
    let links = [r0, r1, r2, r3, r4, r5];
    assert forall|f: int, t: int|
        0 <= f < 6 && 0 <= t < 6 implies #[trigger] links@[f]@[t] == connections@.contains(
        ((f + 1) as u8, (t + 1) as u8),
    ) by {
        if f == 0 { assert(links@[0] == r0); }
        else if f == 1 { assert(links@[1] == r1); }
        else if f == 2 { assert(links@[2] == r2); }
        else if f == 3 { assert(links@[3] == r3); }
        else if f == 4 { assert(links@[4] == r4); }
        else { assert(links@[5] == r5); }
    }
    links
}

} // verus!
