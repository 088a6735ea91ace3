use vstd::prelude::*;
use vstd::string::*;
use crate::time::Timestamp;

verus! {

/// One instrument reading: when it was taken and the text the instrument sent.
#[derive(Clone, Debug)]
pub struct Sample {
    pub timestamp: Timestamp,
    pub raw_value: String,
}

/// One line of the log and of an acquisition table:
/// `<RFC 3339 timestamp>\t<raw value>\n`.
pub open spec fn row_of(s: Sample) -> Seq<char> {
    s.timestamp.text() + "\t"@ + s.raw_value@ + "\n"@
}

/// The first line of an acquisition table.
pub open spec fn table_header() -> Seq<char> {
    "timestamp\tvalue\n"@
}

/// The data rows of an acquisition table, one per sample, in order.
pub open spec fn table_rows(samples: Seq<Sample>) -> Seq<Seq<char>> {
    samples.map_values(|s: Sample| row_of(s))
}

/// The rows written one after the other.
pub open spec fn joined(rows: Seq<Seq<char>>) -> Seq<char>
    decreases rows.len(),
{
    if rows.len() == 0 {
        Seq::empty()
    } else {
        joined(rows.drop_last()) + rows.last()
    }
}

/// The whole acquisition table: the header, then one row per sample.
pub open spec fn table_of(samples: Seq<Sample>) -> Seq<char> {
    table_header() + joined(table_rows(samples))
}

impl Sample {
    /// The sample's line, as the log stores it and as it stands in a table.
    pub fn record(&self) -> (r: String)
        ensures
            r@ == row_of(*self),
    {
        let mut line = self.timestamp.to_rfc3339();
        line.append("\t");
        line.append(self.raw_value.as_str());
        line.append("\n");
        line
    }
}

/// Serializes collected samples into the tab-separated table of an
/// acquisition reply.
pub fn samples_table(samples: &Vec<Sample>) -> (r: String)
    ensures
        r@ == table_of(samples@),
{
    let mut table = String::from_str("timestamp\tvalue\n");
    let mut i: usize = 0;
    while i < samples.len()
        invariant
            i <= samples@.len(),
            table@ == table_header() + joined(table_rows(samples@.take(i as int))),
        decreases samples@.len() - i,
    {
        let line = samples[i].record();
        proof {
            let before = table_rows(samples@.take(i as int));
            let after = table_rows(samples@.take(i + 1));
            assert(after.drop_last() =~= before);
            assert(after.last() == row_of(samples@[i as int]));
        }
        table.append(line.as_str());
        i = i + 1;
    }
    assert(samples@.take(i as int) =~= samples@);
    table
}

} // verus!
