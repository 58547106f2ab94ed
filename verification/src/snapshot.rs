use vstd::prelude::*;
use vstd::multiset::Multiset;
use vstd::seq_lib::*;

verus! {

/// Run status of one planet, as reported in a snapshot.
#[derive(Clone, Copy, PartialEq, Eq, Structural, Debug)]
pub enum Status {
    Running,
    Paused,
    Dead,
}

/// Point-in-time information about one planet.
pub struct PlanetInfo {
    /// Label of the rocket currently assembled on the planet.
    pub rocket: String,
    /// Total number of energy cells on the planet.
    pub energy_cells: usize,
    /// How many of those cells are charged; never more than `energy_cells`.
    pub charged_cells: usize,
    /// Run status of the planet.
    pub status: Status,
}

/// One row of the planet table: a planet identifier with its info.
pub struct PlanetEntry {
    pub id: u32,
    pub info: PlanetInfo,
}

/// Point-in-time information about one explorer.
pub struct ExplorerInfo {
    pub id: u32,
    /// Identifier of the planet the explorer currently stands on.
    pub pos: u32,
    /// Number of items the explorer carries.
    pub inventory: usize,
}

impl PlanetInfo {
    /// A planet's info is well formed when its charged-cell count does not
    /// exceed its total cell count.
    pub open spec fn wf(self) -> bool {
        self.charged_cells <= self.energy_cells
    }

    /// Number of cells that are not charged; well-formedness keeps the
    /// subtraction from underflowing.
    pub fn empty_cells(&self) -> (r: usize)
        requires
            self.wf(),
        ensures
            r == self.energy_cells - self.charged_cells,
    {
        self.energy_cells - self.charged_cells
    }
}

/// Every row of a snapshot holds well-formed planet info.
pub open spec fn planets_wf(planets: Seq<PlanetEntry>) -> bool {
    forall|k: int| 0 <= k < planets.len() ==> #[trigger] planets[k].info.wf()
}

/// Rows ordered by ascending planet identifier.
pub open spec fn sorted_by_id(s: Seq<PlanetEntry>) -> bool {
    forall|a: int, b: int| 0 <= a < b < s.len() ==> #[trigger] s[a].id <= #[trigger] s[b].id
}

/// Put the rows of a snapshot into ascending order of planet identifier,
/// keeping exactly the same rows.
///
/// The engine hands the planet mapping out in arbitrary order; the table
/// wants one stable order, so that a row index means the same planet from
/// one redraw to the next.
pub fn sort_rows_by_id(rows: Vec<PlanetEntry>) -> (r: Vec<PlanetEntry>)
    ensures
        sorted_by_id(r@),
        r@.to_multiset() == rows@.to_multiset(),
        r@.len() == rows@.len(),
        planets_wf(rows@) ==> planets_wf(r@),
{
    let mut rest = rows;
    let mut out: Vec<PlanetEntry> = Vec::new();
    proof {
        out@.to_multiset_ensures();
        rest@.to_multiset_ensures();
        assert(out@.to_multiset().add(rest@.to_multiset()) =~= rows@.to_multiset());
    }
    while rest.len() > 0
        invariant
            out@.to_multiset().add(rest@.to_multiset()) == rows@.to_multiset(),
            out@.len() + rest@.len() == rows@.len(),
            sorted_by_id(out@),
            forall|a: int, b: int|
                0 <= a < out@.len() && 0 <= b < rest@.len() ==> #[trigger] out@[a].id
                    <= #[trigger] rest@[b].id,
            planets_wf(rows@) ==> planets_wf(out@) && planets_wf(rest@),
        decreases rest@.len(),
    {
        let mut m: usize = 0;
        let mut idx: usize = 1;
        while idx < rest.len()
            invariant
                0 < rest@.len(),
                m < idx <= rest@.len(),
                forall|j: int| 0 <= j < idx ==> rest@[m as int].id <= #[trigger] rest@[j].id,
            decreases rest@.len() - idx,
        {
            if rest[idx].id < rest[m].id {
                m = idx;
            }
            idx = idx + 1;
        }
        let ghost prev_out = out@;
        let ghost prev_rest = rest@;
        let x = rest.remove(m);
        out.push(x);
        proof {
            prev_rest.to_multiset_ensures();
            prev_out.to_multiset_ensures();
            assert(prev_rest.to_multiset().count(x) > 0);
            assert(out@.to_multiset().add(rest@.to_multiset()) =~= prev_out.to_multiset().add(
                prev_rest.to_multiset(),
            ));
            assert(forall|k: int|
                0 <= k < rest@.len() ==> #[trigger] rest@[k] == if k < m {
                    prev_rest[k]
                } else {
                    prev_rest[k + 1]
                });
        }
    }
    proof {
        rest@.to_multiset_ensures();
        assert(rest@.to_multiset() =~= Multiset::<PlanetEntry>::empty());
        assert(out@.to_multiset().add(rest@.to_multiset()) =~= out@.to_multiset());
    }
    out
}

} // verus!
