//! The tile-grid map: a rectangular grid of tile codes, one byte per cell,
//! parsed from a comma-separated, newline-delimited byte stream.
//!
//! Parsing never fails; the shape check afterwards rejects a map with no rows
//! (`EmptyMap`) or with rows of unequal length (`VariousRowLengthMap`).

use vstd::prelude::*;

verus! {

/// The ways loading a map can fail. `OpenMap` is reported by callers that
/// read map bytes from the outside world and cannot obtain them at all; the
/// two shape errors come from `check_map_format`.
#[derive(Debug, Clone, Copy, PartialEq, Eq, Structural)]
pub enum Error {
    OpenMap,
    EmptyMap,
    VariousRowLengthMap,
}

/// A rectangular grid of tile codes, one byte per cell.
#[derive(Debug)]
pub struct TileMap {
    pub content: Vec<Vec<u8>>,
}

/// The shape `check_map_format` accepts: at least one row, and every row as
/// long as the first.
pub open spec fn rows_uniform(rows: Seq<Seq<u8>>) -> bool {
    rows.len() > 0 && forall|i: int| 0 <= i < rows.len() ==> (#[trigger] rows[i]).len() == rows[0].len()
}

/// The rows the parser accumulates over a byte stream: a comma is skipped, a
/// newline starts a new row, and any other byte is appended to the last row.
/// The stream always yields at least one (possibly empty) row.
pub open spec fn parse_rows(content: Seq<u8>) -> Seq<Seq<u8>>
    decreases content.len(),
{
    if content.len() == 0 {
        seq![Seq::<u8>::empty()]
    } else {
        let rest = parse_rows(content.drop_last());
        let b = content.last();
        if b == 44u8 {
            rest
        } else if b == 10u8 {
            rest.push(Seq::<u8>::empty())
        } else {
            rest.drop_last().push(rest.last().push(b))
        }
    }
}

/// What `parse_map` returns: the accumulated rows, with a trailing empty row
/// (left by a final newline, or by an empty stream) removed.
pub open spec fn parse_map_spec(content: Seq<u8>) -> Seq<Seq<u8>> {
    let rows = parse_rows(content);
    if rows.last().len() == 0 {
        rows.drop_last()
    } else {
        rows
    }
}

/// The parser always holds at least one row.
pub proof fn lemma_parse_rows_nonempty(content: Seq<u8>)
    ensures
        parse_rows(content).len() >= 1,
    decreases content.len(),
{
    if content.len() > 0 {
        lemma_parse_rows_nonempty(content.drop_last());
    }
}

/// Splits a raw byte stream into rows of tile codes: commas separate cells,
/// newlines separate rows, and a trailing empty row is dropped.
pub fn parse_map(content: &[u8]) -> (map: Vec<Vec<u8>>)
    ensures
        map.deep_view() == parse_map_spec(content@),
{
    let ghost all = content@;
    let mut rows: Vec<Vec<u8>> = Vec::new();
    rows.push(Vec::new());
    proof {
        assert(all.take(0) =~= Seq::<u8>::empty());
        assert(rows.deep_view() =~~= parse_rows(all.take(0)));
    }
    let mut i: usize = 0;
    while i < content.len()
        invariant
            i <= all.len(),
            all == content@,
            rows.deep_view() == parse_rows(all.take(i as int)),
            rows.len() >= 1,
        decreases all.len() - i,
    {
        let ghost pre = all.take(i as int);
        let ghost post = all.take(i as int + 1);
        proof {
            assert(post.drop_last() =~= pre);
            assert(post.last() == all[i as int]);
            lemma_parse_rows_nonempty(pre);
        }
        let b = content[i];
        if b == 44 {
        } else if b == 10 {
            let empty_row: Vec<u8> = Vec::new();
            proof {
                assert(empty_row.deep_view() =~= Seq::<u8>::empty());
            }
            rows.push(empty_row);
            proof {
                assert(rows.deep_view() =~~= parse_rows(post));
            }
        } else {
            let mut last_row = rows.pop().unwrap();
            let ghost last_pre = last_row.deep_view();
            last_row.push(b);
            proof {
                assert(last_row.deep_view() =~= last_pre.push(b));
                assert(last_pre == parse_rows(pre).last());
            }
            rows.push(last_row);
            proof {
                assert(rows.deep_view() =~~= parse_rows(pre).drop_last().push(parse_rows(pre).last().push(b)));
            }
        }
        i = i + 1;
    }
    proof {
        assert(all.take(all.len() as int) =~= all);
        lemma_parse_rows_nonempty(all);
    }
    if rows[rows.len() - 1].len() == 0 {
        rows.pop();
        proof {
            assert(rows.deep_view() =~~= parse_rows(all).drop_last());
        }
    }
    rows
}

/// Accepts exactly the well-shaped maps: at least one row, all rows of equal
/// length. Reports which of the two shape conditions failed.
pub fn check_map_format(map: &[Vec<u8>]) -> (r: Result<(), Error>)
    ensures
        (match r {
            Ok(()) => rows_uniform(map.deep_view()),
            Err(Error::EmptyMap) => map@.len() == 0,
            Err(Error::VariousRowLengthMap) => map@.len() > 0 && !rows_uniform(map.deep_view()),
            Err(Error::OpenMap) => false,
        }),
{
    if map.len() == 0 {
        return Err(Error::EmptyMap);
    }
    let row_length = map[0].len();
    let mut i: usize = 1;
    while i < map.len()
        invariant
            1 <= i <= map@.len(),
            row_length == map.deep_view()[0].len(),
            forall|j: int| 0 <= j < i ==> (#[trigger] map.deep_view()[j]).len() == map.deep_view()[0].len(),
        decreases map@.len() - i,
    {
        if map[i].len() != row_length {
            assert(map.deep_view()[i as int].len() != map.deep_view()[0].len());
            return Err(Error::VariousRowLengthMap);
        }
        i = i + 1;
    }
    Ok(())
}

impl TileMap {
    /// A map whose shape check passed.
    pub open spec fn wf(self) -> bool {
        rows_uniform(self.content.deep_view())
    }

    /// Builds a map from the raw bytes of a map file: parses the cells and
    /// rejects an empty or ragged grid. Reading the bytes from wherever they
    /// are stored is the caller's business.
    pub fn load_map(content: &[u8]) -> (r: Result<TileMap, Error>)
        ensures
            (match r {
                Ok(m) => m.content.deep_view() == parse_map_spec(content@) && m.wf(),
                Err(Error::EmptyMap) => parse_map_spec(content@).len() == 0,
                Err(Error::VariousRowLengthMap) => parse_map_spec(content@).len() > 0
                    && !rows_uniform(parse_map_spec(content@)),
                Err(Error::OpenMap) => false,
            }),
    {
        let map = parse_map(content);
        match check_map_format(map.as_slice()) {
            Ok(()) => Ok(TileMap { content: map }),
            Err(e) => Err(e),
        }
    }
}

} // verus!
