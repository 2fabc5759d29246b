use vstd::prelude::*;

verus! {

/// Routing of one DX7 algorithm, for display.
#[derive(Debug, Clone)]
pub struct AlgorithmInfo {
    /// Which operators are carriers (1-indexed)
    pub carriers: Vec<u8>,
    /// Connections: (from, to) where 'from' modulates 'to' (1-indexed)
    pub connections: Vec<(u8, u8)>,
    /// Which operator has self-feedback (1-indexed), 0 if none
    pub feedback_op: u8,
}

/// The algorithm number that is looked up: numbers outside 1..32 fall back to 1.
pub open spec fn effective_algorithm(n: u8) -> u8 {
    if 1 <= n && n <= 32 { n } else { 1 }
}

/// The carriers of algorithm `n` (1..32).
pub open spec fn table_carriers(n: u8) -> Seq<u8> {
    if n == 1 {
        seq![1u8, 3u8]
    } else if n == 2 {
        seq![1u8, 3u8]
    } else if n == 3 {
        seq![1u8, 4u8]
    } else if n == 4 {
        seq![1u8, 4u8]
    } else if n == 5 {
        seq![1u8, 3u8, 5u8]
    } else if n == 6 {
        seq![1u8, 3u8, 5u8]
    } else if n == 7 {
        seq![1u8, 3u8]
    } else if n == 8 {
        seq![1u8, 3u8]
    } else if n == 9 {
        seq![1u8, 3u8]
    } else if n == 10 {
        seq![1u8, 4u8]
    } else if n == 11 {
        seq![1u8, 4u8]
    } else if n == 12 {
        seq![1u8, 3u8]
    } else if n == 13 {
        seq![1u8, 3u8]
    } else if n == 14 {
        seq![1u8, 3u8]
    } else if n == 15 {
        seq![1u8, 3u8]
    } else if n == 16 {
        seq![1u8]
    } else if n == 17 {
        seq![1u8]
    } else if n == 18 {
        seq![1u8]
    } else if n == 19 {
        seq![1u8, 4u8, 5u8]
    } else if n == 20 {
        seq![1u8, 2u8, 4u8]
    } else if n == 21 {
        seq![1u8, 2u8, 4u8, 5u8]
    } else if n == 22 {
        seq![1u8, 3u8, 4u8, 5u8]
    } else if n == 23 {
        seq![1u8, 2u8, 4u8, 5u8]
    } else if n == 24 {
        seq![1u8, 2u8, 3u8, 4u8, 5u8]
    } else if n == 25 {
        seq![1u8, 2u8, 3u8, 4u8, 5u8]
    } else if n == 26 {
        seq![1u8, 2u8, 4u8]
    } else if n == 27 {
        seq![1u8, 2u8, 4u8]
    } else if n == 28 {
        seq![1u8, 3u8, 6u8]
    } else if n == 29 {
        seq![1u8, 2u8, 3u8, 5u8]
    } else if n == 30 {
        seq![1u8, 2u8, 3u8, 6u8]
    } else if n == 31 {
        seq![1u8, 2u8, 3u8, 4u8, 5u8]
    } else {
        seq![1u8, 2u8, 3u8, 4u8, 5u8, 6u8]
    }
}

/// The modulation connections (from, to) of algorithm `n` (1..32).
pub open spec fn table_connections(n: u8) -> Seq<(u8, u8)> {
    if n == 1 {
        seq![(2u8, 1u8), (4u8, 3u8), (5u8, 4u8), (6u8, 5u8)]
    } else if n == 2 {
        seq![(2u8, 1u8), (4u8, 3u8), (5u8, 4u8), (6u8, 5u8)]
    } else if n == 3 {
        seq![(2u8, 1u8), (3u8, 2u8), (5u8, 4u8), (6u8, 5u8)]
    } else if n == 4 {
        seq![(3u8, 2u8), (2u8, 1u8), (6u8, 5u8), (5u8, 4u8)]
    } else if n == 5 {
        seq![(2u8, 1u8), (4u8, 3u8), (6u8, 5u8)]
    } else if n == 6 {
        seq![(2u8, 1u8), (4u8, 3u8), (6u8, 5u8)]
    } else if n == 7 {
        seq![(2u8, 1u8), (4u8, 3u8), (5u8, 3u8), (6u8, 5u8)]
    } else if n == 8 {
        seq![(2u8, 1u8), (4u8, 3u8), (5u8, 3u8), (6u8, 5u8)]
    } else if n == 9 {
        seq![(2u8, 1u8), (4u8, 3u8), (5u8, 3u8), (6u8, 5u8)]
    } else if n == 10 {
        seq![(2u8, 1u8), (3u8, 2u8), (5u8, 4u8), (6u8, 4u8)]
    } else if n == 11 {
        seq![(2u8, 1u8), (3u8, 2u8), (5u8, 4u8), (6u8, 4u8)]
    } else if n == 12 {
        seq![(2u8, 1u8), (4u8, 3u8), (5u8, 3u8), (6u8, 3u8)]
    } else if n == 13 {
        seq![(2u8, 1u8), (4u8, 3u8), (5u8, 3u8), (6u8, 3u8)]
    } else if n == 14 {
        seq![(2u8, 1u8), (4u8, 3u8), (5u8, 4u8), (6u8, 4u8)]
    } else if n == 15 {
        seq![(2u8, 1u8), (4u8, 3u8), (5u8, 4u8), (6u8, 4u8)]
    } else if n == 16 {
        seq![(2u8, 1u8), (3u8, 1u8), (4u8, 3u8), (5u8, 1u8), (6u8, 5u8)]
    } else if n == 17 {
        seq![(2u8, 1u8), (3u8, 1u8), (4u8, 3u8), (5u8, 1u8), (6u8, 5u8)]
    } else if n == 18 {
        seq![(2u8, 1u8), (3u8, 1u8), (4u8, 1u8), (5u8, 4u8), (6u8, 5u8)]
    } else if n == 19 {
        seq![(3u8, 2u8), (2u8, 1u8), (6u8, 5u8), (6u8, 4u8)]
    } else if n == 20 {
        seq![(3u8, 1u8), (3u8, 2u8), (5u8, 4u8), (6u8, 4u8)]
    } else if n == 21 {
        seq![(3u8, 1u8), (3u8, 2u8), (6u8, 4u8), (6u8, 5u8)]
    } else if n == 22 {
        seq![(2u8, 1u8), (6u8, 3u8), (6u8, 4u8), (6u8, 5u8)]
    } else if n == 23 {
        seq![(3u8, 2u8), (6u8, 4u8), (6u8, 5u8)]
    } else if n == 24 {
        seq![(6u8, 3u8), (6u8, 4u8), (6u8, 5u8)]
    } else if n == 25 {
        seq![(6u8, 4u8), (6u8, 5u8)]
    } else if n == 26 {
        seq![(3u8, 2u8), (5u8, 4u8), (6u8, 4u8)]
    } else if n == 27 {
        seq![(3u8, 2u8), (5u8, 4u8), (6u8, 4u8)]
    } else if n == 28 {
        seq![(2u8, 1u8), (4u8, 3u8), (5u8, 4u8)]
    } else if n == 29 {
        seq![(4u8, 3u8), (6u8, 5u8)]
    } else if n == 30 {
        seq![(4u8, 3u8), (5u8, 4u8)]
    } else if n == 31 {
        seq![(6u8, 5u8)]
    } else {
        seq![]
    }
}

/// The feedback operator of algorithm `n` (1..32).
pub open spec fn table_feedback_op(n: u8) -> u8 {
    if n == 1 {
        6
    } else if n == 2 {
        2
    } else if n == 3 {
        6
    } else if n == 4 {
        4
    } else if n == 5 {
        6
    } else if n == 6 {
        6
    } else if n == 7 {
        6
    } else if n == 8 {
        4
    } else if n == 9 {
        2
    } else if n == 10 {
        3
    } else if n == 11 {
        6
    } else if n == 12 {
        2
    } else if n == 13 {
        6
    } else if n == 14 {
        6
    } else if n == 15 {
        2
    } else if n == 16 {
        6
    } else if n == 17 {
        2
    } else if n == 18 {
        3
    } else if n == 19 {
        6
    } else if n == 20 {
        3
    } else if n == 21 {
        3
    } else if n == 22 {
        6
    } else if n == 23 {
        6
    } else if n == 24 {
        6
    } else if n == 25 {
        6
    } else if n == 26 {
        6
    } else if n == 27 {
        3
    } else if n == 28 {
        5
    } else if n == 29 {
        6
    } else if n == 30 {
        5
    } else if n == 31 {
        6
    } else {
        6
    }
}

/// The display name of algorithm `n` (1..32).
pub open spec fn table_name(n: u8) -> Seq<char> {
    if n == 1 {
        "1: Two Stacks"@
    } else if n == 2 {
        "2: Stack + Self"@
    } else if n == 3 {
        "3: Dual Stacks"@
    } else if n == 4 {
        "4: Stack Loop"@
    } else if n == 5 {
        "5: Three Pairs"@
    } else if n == 6 {
        "6: Three Pairs FB"@
    } else if n == 7 {
        "7: Dual + Stack"@
    } else if n == 8 {
        "8: Dual Split"@
    } else if n == 9 {
        "9: Dual + Self"@
    } else if n == 10 {
        "10: Split Stack"@
    } else if n == 11 {
        "11: Stack + Dual"@
    } else if n == 12 {
        "12: Triple Mod"@
    } else if n == 13 {
        "13: Triple Fan"@
    } else if n == 14 {
        "14: Dual Stack"@
    } else if n == 15 {
        "15: Stack + Self"@
    } else if n == 16 {
        "16: Tree + Self"@
    } else if n == 17 {
        "17: Tree Mod"@
    } else if n == 18 {
        "18: Quad + Stack"@
    } else if n == 19 {
        "19: Fan + Stack"@
    } else if n == 20 {
        "20: Triple + Dual"@
    } else if n == 21 {
        "21: Quad + Dual"@
    } else if n == 22 {
        "22: Quad + Stack"@
    } else if n == 23 {
        "23: Quad + Self"@
    } else if n == 24 {
        "24: Penta + Self"@
    } else if n == 25 {
        "25: Penta + Dual"@
    } else if n == 26 {
        "26: Triple + Self"@
    } else if n == 27 {
        "27: Triple Split"@
    } else if n == 28 {
        "28: Triple + Stack"@
    } else if n == 29 {
        "29: Quad + Stack"@
    } else if n == 30 {
        "30: Quad + Self"@
    } else if n == 31 {
        "31: Five + Mod"@
    } else {
        "32: All Carriers"@
    }
}

/// Get algorithm name for display
pub fn get_algorithm_name(algorithm_number: u8) -> (name: &'static str)
    ensures
        name@ == table_name(effective_algorithm(algorithm_number)),
{
    match algorithm_number {
        1 => "1: Two Stacks",
        2 => "2: Stack + Self",
        3 => "3: Dual Stacks",
        4 => "4: Stack Loop",
        5 => "5: Three Pairs",
        6 => "6: Three Pairs FB",
        7 => "7: Dual + Stack",
        8 => "8: Dual Split",
        9 => "9: Dual + Self",
        10 => "10: Split Stack",
        11 => "11: Stack + Dual",
        12 => "12: Triple Mod",
        13 => "13: Triple Fan",
        14 => "14: Dual Stack",
        15 => "15: Stack + Self",
        16 => "16: Tree + Self",
        17 => "17: Tree Mod",
        18 => "18: Quad + Stack",
        19 => "19: Fan + Stack",
        20 => "20: Triple + Dual",
        21 => "21: Quad + Dual",
        22 => "22: Quad + Stack",
        23 => "23: Quad + Self",
        24 => "24: Penta + Self",
        25 => "25: Penta + Dual",
        26 => "26: Triple + Self",
        27 => "27: Triple Split",
        28 => "28: Triple + Stack",
        29 => "29: Quad + Stack",
        30 => "30: Quad + Self",
        31 => "31: Five + Mod",
        32 => "32: All Carriers",
        _ => "1: Two Stacks",
    }
}

/// Get algorithm structure for visualization
pub fn get_algorithm_info(algorithm_number: u8) -> (info: AlgorithmInfo)
    ensures
        info.carriers@ == table_carriers(effective_algorithm(algorithm_number)),
        info.connections@ == table_connections(effective_algorithm(algorithm_number)),
        info.feedback_op == table_feedback_op(effective_algorithm(algorithm_number)),
{
    let n = if 1 <= algorithm_number && algorithm_number <= 32 { algorithm_number } else { 1 };
    let (carriers, connections, feedback_op): (Vec<u8>, Vec<(u8, u8)>, u8) = match n {
        1 => (vec![1, 3], vec![(2, 1), (4, 3), (5, 4), (6, 5)], 6),
        2 => (vec![1, 3], vec![(2, 1), (4, 3), (5, 4), (6, 5)], 2),
        3 => (vec![1, 4], vec![(2, 1), (3, 2), (5, 4), (6, 5)], 6),
        4 => (vec![1, 4], vec![(3, 2), (2, 1), (6, 5), (5, 4)], 4),
        5 => (vec![1, 3, 5], vec![(2, 1), (4, 3), (6, 5)], 6),
        6 => (vec![1, 3, 5], vec![(2, 1), (4, 3), (6, 5)], 6),
        7 => (vec![1, 3], vec![(2, 1), (4, 3), (5, 3), (6, 5)], 6),
        8 => (vec![1, 3], vec![(2, 1), (4, 3), (5, 3), (6, 5)], 4),
        9 => (vec![1, 3], vec![(2, 1), (4, 3), (5, 3), (6, 5)], 2),
        10 => (vec![1, 4], vec![(2, 1), (3, 2), (5, 4), (6, 4)], 3),
        11 => (vec![1, 4], vec![(2, 1), (3, 2), (5, 4), (6, 4)], 6),
        12 => (vec![1, 3], vec![(2, 1), (4, 3), (5, 3), (6, 3)], 2),
        13 => (vec![1, 3], vec![(2, 1), (4, 3), (5, 3), (6, 3)], 6),
        14 => (vec![1, 3], vec![(2, 1), (4, 3), (5, 4), (6, 4)], 6),
        15 => (vec![1, 3], vec![(2, 1), (4, 3), (5, 4), (6, 4)], 2),
        16 => (vec![1], vec![(2, 1), (3, 1), (4, 3), (5, 1), (6, 5)], 6),
        17 => (vec![1], vec![(2, 1), (3, 1), (4, 3), (5, 1), (6, 5)], 2),
        18 => (vec![1], vec![(2, 1), (3, 1), (4, 1), (5, 4), (6, 5)], 3),
        19 => (vec![1, 4, 5], vec![(3, 2), (2, 1), (6, 5), (6, 4)], 6),
        20 => (vec![1, 2, 4], vec![(3, 1), (3, 2), (5, 4), (6, 4)], 3),
        21 => (vec![1, 2, 4, 5], vec![(3, 1), (3, 2), (6, 4), (6, 5)], 3),
        22 => (vec![1, 3, 4, 5], vec![(2, 1), (6, 3), (6, 4), (6, 5)], 6),
        23 => (vec![1, 2, 4, 5], vec![(3, 2), (6, 4), (6, 5)], 6),
        24 => (vec![1, 2, 3, 4, 5], vec![(6, 3), (6, 4), (6, 5)], 6),
        25 => (vec![1, 2, 3, 4, 5], vec![(6, 4), (6, 5)], 6),
        26 => (vec![1, 2, 4], vec![(3, 2), (5, 4), (6, 4)], 6),
        27 => (vec![1, 2, 4], vec![(3, 2), (5, 4), (6, 4)], 3),
        28 => (vec![1, 3, 6], vec![(2, 1), (4, 3), (5, 4)], 5),
        29 => (vec![1, 2, 3, 5], vec![(4, 3), (6, 5)], 6),
        30 => (vec![1, 2, 3, 6], vec![(4, 3), (5, 4)], 5),
        31 => (vec![1, 2, 3, 4, 5], vec![(6, 5)], 6),
        _ => (vec![1, 2, 3, 4, 5, 6], Vec::new(), 6),
    };
    assert(carriers@ =~= table_carriers(n));
    assert(connections@ =~= table_connections(n));
    AlgorithmInfo { carriers, connections, feedback_op }
}

/// A number for a carrier list read as base-8 digits, first carrier first.
spec fn carriers_code(s: Seq<u8>, n: int) -> int
    decreases n,
{
    if n <= 0 {
        0
    } else {
        carriers_code(s, n - 1) * 8 + s[n - 1]
    }
}

/// A number for an edge list read as base-64 digits, first edge first.
spec fn connections_code(s: Seq<(u8, u8)>, n: int) -> int
    decreases n,
{
    if n <= 0 {
        0
    } else {
        connections_code(s, n - 1) * 64 + s[n - 1].0 * 8 + s[n - 1].1
    }
}

/// One number for the whole routing of an algorithm.
spec fn routing_code(n: u8) -> int {
    let c = table_carriers(n);
    let t = table_connections(n);
    (carriers_code(c, c.len() as int) * 0x8000_0000 + connections_code(t, t.len() as int)) * 8
        + table_feedback_op(n)
}

spec fn routing_code_value(n: u8) -> int {
    if n == 1 {
        189015382446
    } else if n == 2 {
        189015382442
    } else if n == 3 {
        206194956718
    } else if n == 4 {
        206213540708
    } else if n == 5 {
        1597728409518
    } else if n == 6 {
        1597728409518
    } else if n == 7 {
        189015381934
    } else if n == 8 {
        189015381932
    } else if n == 9 {
        189015381930
    } else if n == 10 {
        206194956707
    } else if n == 11 {
        206194956710
    } else if n == 12 {
        189015381914
    } else if n == 13 {
        189015381918
    } else if n == 14 {
        189015382438
    } else if n == 15 {
        189015382434
    } else if n == 16 {
        19515167662
    } else if n == 17 {
        19515167658
    } else if n == 18 {
        19515103659
    } else if n == 19 {
        1735221898150
    } else if n == 20 {
        1443162315171
    } else if n == 21 {
        11630824745387
    } else if n == 22 {
        12730320415150
    } else if n == 23 {
        11630772316590
    } else if n == 24 {
        91895121963438
    } else if n == 25 {
        91895120292270
    } else if n == 26 {
        1443109886374
    } else if n == 27 {
        1443109886371
    } else if n == 28 {
        1614908278629
    } else if n == 29 {
        11493332502446
    } else if n == 30 {
        11510512371557
    } else if n == 31 {
        91895120265646
    } else if n == 32 {
        735264041336838
    } else {
        0
    }
}

proof fn lemma_routing_codes(n: u8)
    requires
        1 <= n <= 32,
    ensures
        routing_code(n) == routing_code_value(n),
{
    reveal_with_fuel(carriers_code, 7);
    reveal_with_fuel(connections_code, 6);
}

/// Two algorithms route their operators the same way.
pub open spec fn same_routing(a: u8, b: u8) -> bool {
    &&& table_carriers(a) == table_carriers(b)
    &&& table_connections(a) == table_connections(b)
    &&& table_feedback_op(a) == table_feedback_op(b)
}

/// The 32 algorithms are 32 different routings, but for algorithms 5 and 6,
/// which the table shows alike (the two differ only in the audio path, where
/// algorithm 6 feeds operator 5 back into operator 6). In particular each
/// algorithm's feedback operator tells apart algorithms that share carriers
/// and edges, such as 1 (feedback on operator 6) and 2 (on operator 2).
pub proof fn lemma_algorithms_are_distinct(a: u8, b: u8)
    requires
        1 <= a < b <= 32,
        same_routing(a, b),
    ensures
        a == 5 && b == 6,
{
    lemma_routing_codes(a);
    lemma_routing_codes(b);
    assert(routing_code(a) == routing_code(b));
}

/// Whether operator `k` modulates some operator under the connections `conns`.
pub open spec fn modulates_some(conns: Seq<(u8, u8)>, k: u8) -> bool {
    exists|i: int| 0 <= i < conns.len() && (#[trigger] conns[i]).0 == k
}

/// The shape every DX7 routing table has: at least one carrier, carriers listed
/// once each in ascending order, every connection running from a higher to a
/// lower operator (so the routing has no cycle), a feedback operator among the
/// six, and the carriers being exactly the operators that modulate no other.
pub open spec fn routing_well_formed(carriers: Seq<u8>, conns: Seq<(u8, u8)>, feedback_op: u8) -> bool {
    &&& carriers.len() > 0
    &&& forall|i: int| 0 <= i < carriers.len() ==> 1 <= #[trigger] carriers[i] <= 6
    &&& forall|i: int, j: int| 0 <= i < j < carriers.len() ==> carriers[i] < carriers[j]
    &&& forall|i: int| 0 <= i < conns.len() ==> 1 <= (#[trigger] conns[i]).1 < conns[i].0 <= 6
    &&& 1 <= feedback_op <= 6
    &&& forall|k: u8| 1 <= k <= 6 ==> (carriers.contains(k) <==> !modulates_some(conns, k))
}

spec fn seq_has(c: Seq<u8>, k: u8) -> bool
    decreases c.len(),
{
    c.len() > 0 && (c[0] == k || seq_has(c.drop_first(), k))
}

spec fn sources_have(t: Seq<(u8, u8)>, k: u8) -> bool
    decreases t.len(),
{
    t.len() > 0 && (t[0].0 == k || sources_have(t.drop_first(), k))
}

spec fn carrier_rule(c: Seq<u8>, t: Seq<(u8, u8)>) -> bool {
    &&& seq_has(c, 1) == !sources_have(t, 1)
    &&& seq_has(c, 2) == !sources_have(t, 2)
    &&& seq_has(c, 3) == !sources_have(t, 3)
    &&& seq_has(c, 4) == !sources_have(t, 4)
    &&& seq_has(c, 5) == !sources_have(t, 5)
    &&& seq_has(c, 6) == !sources_have(t, 6)
}

proof fn lemma_carrier_rule(m: u8)
    requires
        1 <= m <= 32,
    ensures
        carrier_rule(table_carriers(m), table_connections(m)),
{
    reveal_with_fuel(seq_has, 7);
    reveal_with_fuel(sources_have, 7);
    if m == 1 {
        assert(carrier_rule(table_carriers(1), table_connections(1)));
    } else if m == 2 {
        assert(carrier_rule(table_carriers(2), table_connections(2)));
    } else if m == 3 {
        assert(carrier_rule(table_carriers(3), table_connections(3)));
    } else if m == 4 {
        assert(carrier_rule(table_carriers(4), table_connections(4)));
    } else if m == 5 {
        assert(carrier_rule(table_carriers(5), table_connections(5)));
    } else if m == 6 {
        assert(carrier_rule(table_carriers(6), table_connections(6)));
    } else if m == 7 {
        assert(carrier_rule(table_carriers(7), table_connections(7)));
    } else if m == 8 {
        assert(carrier_rule(table_carriers(8), table_connections(8)));
    } else if m == 9 {
        assert(carrier_rule(table_carriers(9), table_connections(9)));
    } else if m == 10 {
        assert(carrier_rule(table_carriers(10), table_connections(10)));
    } else if m == 11 {
        assert(carrier_rule(table_carriers(11), table_connections(11)));
    } else if m == 12 {
        assert(carrier_rule(table_carriers(12), table_connections(12)));
    } else if m == 13 {
        assert(carrier_rule(table_carriers(13), table_connections(13)));
    } else if m == 14 {
        assert(carrier_rule(table_carriers(14), table_connections(14)));
    } else if m == 15 {
        assert(carrier_rule(table_carriers(15), table_connections(15)));
    } else if m == 16 {
        assert(carrier_rule(table_carriers(16), table_connections(16)));
    } else if m == 17 {
        assert(carrier_rule(table_carriers(17), table_connections(17)));
    } else if m == 18 {
        assert(carrier_rule(table_carriers(18), table_connections(18)));
    } else if m == 19 {
        assert(carrier_rule(table_carriers(19), table_connections(19)));
    } else if m == 20 {
        assert(carrier_rule(table_carriers(20), table_connections(20)));
    } else if m == 21 {
        assert(carrier_rule(table_carriers(21), table_connections(21)));
    } else if m == 22 {
        assert(carrier_rule(table_carriers(22), table_connections(22)));
    } else if m == 23 {
        assert(carrier_rule(table_carriers(23), table_connections(23)));
    } else if m == 24 {
        assert(carrier_rule(table_carriers(24), table_connections(24)));
    } else if m == 25 {
        assert(carrier_rule(table_carriers(25), table_connections(25)));
    } else if m == 26 {
        assert(carrier_rule(table_carriers(26), table_connections(26)));
    } else if m == 27 {
        assert(carrier_rule(table_carriers(27), table_connections(27)));
    } else if m == 28 {
        assert(carrier_rule(table_carriers(28), table_connections(28)));
    } else if m == 29 {
        assert(carrier_rule(table_carriers(29), table_connections(29)));
    } else if m == 30 {
        assert(carrier_rule(table_carriers(30), table_connections(30)));
    } else if m == 31 {
        assert(carrier_rule(table_carriers(31), table_connections(31)));
    } else {
        assert(carrier_rule(table_carriers(32), table_connections(32)));
    }
}

proof fn lemma_seq_has(c: Seq<u8>, k: u8)
    ensures
        seq_has(c, k) <==> c.contains(k),
    decreases c.len(),
{
    if c.len() > 0 {
        lemma_seq_has(c.drop_first(), k);
        if c.drop_first().contains(k) {
            let i = choose|i: int| 0 <= i < c.drop_first().len() && c.drop_first()[i] == k;
            assert(c[i + 1] == k);
        }
        if c.contains(k) && c[0] != k {
            let i = choose|i: int| 0 <= i < c.len() && c[i] == k;
            assert(c.drop_first()[i - 1] == k);
        }
    }
}

proof fn lemma_sources_have(t: Seq<(u8, u8)>, k: u8)
    ensures
        sources_have(t, k) <==> modulates_some(t, k),
    decreases t.len(),
{
    if t.len() > 0 {
        lemma_sources_have(t.drop_first(), k);
        if modulates_some(t.drop_first(), k) {
            let i = choose|i: int| 0 <= i < t.drop_first().len() && (#[trigger] t.drop_first()[i]).0 == k;
            assert(t[i + 1].0 == k);
        }
        if modulates_some(t, k) && t[0].0 != k {
            let i = choose|i: int| 0 <= i < t.len() && (#[trigger] t[i]).0 == k;
            assert(t.drop_first()[i - 1].0 == k);
        }
        if t[0].0 == k {
            assert(t[0].0 == k);
        }
    }
}

/// Every algorithm's routing table is well formed (see `routing_well_formed`);
/// numbers outside 1..32 get the routing of algorithm 1, which is well formed too.
#[verifier::rlimit(100)]
pub proof fn lemma_algorithm_routing_well_formed(n: u8)
    ensures
        routing_well_formed(
            table_carriers(effective_algorithm(n)),
            table_connections(effective_algorithm(n)),
            table_feedback_op(effective_algorithm(n)),
        ),
{
    let m = effective_algorithm(n);
    let c = table_carriers(m);
    let t = table_connections(m);
    lemma_carrier_rule(m);
    assert forall|k: u8| 1 <= k <= 6 implies (c.contains(k) <==> !modulates_some(t, k)) by {
        lemma_seq_has(c, k);
        lemma_sources_have(t, k);
    }
}

/// The decimal digits of a number below 100, without leading zeros.
pub open spec fn decimal(n: u8) -> Seq<char>
    recommends
        n < 100,
{
    if n < 10 {
        seq![(48 + n) as char]
    } else {
        seq![(48 + n / 10) as char, (48 + n % 10) as char]
    }
}

/// Every algorithm's name starts with its number and a colon, as in "5: Three Pairs".
pub proof fn lemma_algorithm_name_starts_with_number(n: u8)
    ensures
        ({
            let m = effective_algorithm(n);
            let prefix = decimal(m) + seq![':'];
            table_name(m).len() > prefix.len() && table_name(m).take(prefix.len() as int) == prefix
        }),
{
    let m = effective_algorithm(n);
    if m == 1 {
        reveal_strlit("1: Two Stacks");
    } else if m == 2 {
        reveal_strlit("2: Stack + Self");
    } else if m == 3 {
        reveal_strlit("3: Dual Stacks");
    } else if m == 4 {
        reveal_strlit("4: Stack Loop");
    } else if m == 5 {
        reveal_strlit("5: Three Pairs");
    } else if m == 6 {
        reveal_strlit("6: Three Pairs FB");
    } else if m == 7 {
        reveal_strlit("7: Dual + Stack");
    } else if m == 8 {
        reveal_strlit("8: Dual Split");
    } else if m == 9 {
        reveal_strlit("9: Dual + Self");
    } else if m == 10 {
        reveal_strlit("10: Split Stack");
    } else if m == 11 {
        reveal_strlit("11: Stack + Dual");
    } else if m == 12 {
        reveal_strlit("12: Triple Mod");
    } else if m == 13 {
        reveal_strlit("13: Triple Fan");
    } else if m == 14 {
        reveal_strlit("14: Dual Stack");
    } else if m == 15 {
        reveal_strlit("15: Stack + Self");
    } else if m == 16 {
        reveal_strlit("16: Tree + Self");
    } else if m == 17 {
        reveal_strlit("17: Tree Mod");
    } else if m == 18 {
        reveal_strlit("18: Quad + Stack");
    } else if m == 19 {
        reveal_strlit("19: Fan + Stack");
    } else if m == 20 {
        reveal_strlit("20: Triple + Dual");
    } else if m == 21 {
        reveal_strlit("21: Quad + Dual");
    } else if m == 22 {
        reveal_strlit("22: Quad + Stack");
    } else if m == 23 {
        reveal_strlit("23: Quad + Self");
    } else if m == 24 {
        reveal_strlit("24: Penta + Self");
    } else if m == 25 {
        reveal_strlit("25: Penta + Dual");
    } else if m == 26 {
        reveal_strlit("26: Triple + Self");
    } else if m == 27 {
        reveal_strlit("27: Triple Split");
    } else if m == 28 {
        reveal_strlit("28: Triple + Stack");
    } else if m == 29 {
        reveal_strlit("29: Quad + Stack");
    } else if m == 30 {
        reveal_strlit("30: Quad + Self");
    } else if m == 31 {
        reveal_strlit("31: Five + Mod");
    } else {
        reveal_strlit("32: All Carriers");
    }
    assert(table_name(m).take((decimal(m) + seq![':']).len() as int) =~= decimal(m) + seq![':']);
}

} // verus!
