//! Edges of the operator graph that the algorithm diagrams draw.
use vstd::prelude::*;

verus! {

/// A modulation edge between two operators, numbered 1..6.
#[derive(Debug, Clone, Copy, PartialEq, Eq, Structural)]
pub struct Connection {
    pub from: u8,
    pub to: u8,
    /// The operator modulates itself.
    pub is_feedback: bool,
}


/// The edges of the first `n` cells of a 6x6 link matrix read row by row
/// (row = modulating operator, column = modulated operator, both from 0),
/// numbered from 1.
pub open spec fn edges_upto(links: [[bool; 6]; 6], n: int) -> Seq<Connection>
    decreases n,
{
    if n <= 0 {
        Seq::empty()
    } else {
        let from = (n - 1) / 6;
        let to = (n - 1) % 6;
        let rest = edges_upto(links, n - 1);
        if links@[from]@[to] {
            rest.push(Connection { from: (from + 1) as u8, to: (to + 1) as u8, is_feedback: from == to })
        } else {
            rest
        }
    }
}

/// The modulation edges of an operator link matrix, row by row, with
/// operators numbered from 1 and self-modulation marked as feedback.
pub fn graph_connections(links: &[[bool; 6]; 6]) -> (edges: Vec<Connection>)
    ensures
        edges@ == edges_upto(*links, 36),
{
    let mut edges: Vec<Connection> = Vec::new();
    let mut from: usize = 0;
    while from < 6
        invariant
            from <= 6,
            edges@ == edges_upto(*links, from as int * 6),
        decreases 6 - from,
    {
        let mut to: usize = 0;
        while to < 6
            invariant
                from < 6,
                to <= 6,
                edges@ == edges_upto(*links, from as int * 6 + to as int),
            decreases 6 - to,
        {
            let ghost n = from as int * 6 + to as int + 1;
            assert((n - 1) / 6 == from as int && (n - 1) % 6 == to as int) by (nonlinear_arith)
                requires
                    n == from as int * 6 + to as int + 1,
                    0 <= to < 6,
                    0 <= from,
            ;
            if links[from][to] {
                edges.push(Connection { from: (from + 1) as u8, to: (to + 1) as u8, is_feedback: from == to });
            }
            to = to + 1;
        }
        from = from + 1;
    }
    edges
}

} // verus!
