use vstd::prelude::*;
use crate::text::chars_of;

verus! {

/// The name of what `csv::Reader`, with its default settings, reads from a
/// text: one entry per record after the header row, holding the record's
/// fields, or nothing where the record could not be read.
pub uninterp spec fn csv_rows(text: Seq<char>) -> Seq<Option<Seq<Seq<char>>>>;

pub open spec fn row_view(r: Option<Vec<String>>) -> Option<Seq<Seq<char>>> {
    match r {
        Some(v) => Some(v@.map_values(|s: String| s@)),
        None => None,
    }
}

pub open spec fn rows_view(rows: Seq<Option<Vec<String>>>) -> Seq<Option<Seq<Seq<char>>>> {
    rows.map_values(|o: Option<Vec<String>>| row_view(o))
}

/// Relies on `csv::Reader::from_reader` and `Reader::records`: each record in
/// turn after the header row, its fields as text, or `None` for a record that
/// came back as an error.
#[verifier::external_body]
fn read_csv_rows(text: &str) -> (r: Vec<Option<Vec<String>>>)
    ensures
        rows_view(r@) == csv_rows(text@),
{
    let mut rdr = csv::Reader::from_reader(text.as_bytes());
    rdr.records().map(|res| res.ok().map(|rec| rec.iter().map(|f| f.to_string()).collect())).collect()
}

/// The rows that describe a server: those read without error, with at least
/// eight fields.
pub open spec fn kept_rows(rows: Seq<Option<Seq<Seq<char>>>>) -> Seq<Seq<Seq<char>>>
    decreases rows.len(),
{
    if rows.len() == 0 {
        Seq::empty()
    } else {
        kept_rows(rows.drop_last()) + match rows.last() {
            Some(f) => if f.len() >= 8 {
                seq![f]
            } else {
                Seq::empty()
            },
            None => Seq::empty(),
        }
    }
}

/// One entry of the public server list, as its columns give it.
pub struct UnparsedServer {
    /// The tool's command line for this server.
    pub cmd: String,
    /// Further options, separated by commas.
    pub options: String,
    pub speed: String,
    pub country: String,
    pub site: String,
    pub provider: String,
    pub continent: String,
    pub status: String,
}

/// `rec` holds the first eight fields of `f`, in column order: command,
/// options, speed, country, site, provider, continent, status.
pub open spec fn holds_fields(rec: UnparsedServer, f: Seq<Seq<char>>) -> bool {
    &&& f.len() >= 8
    &&& rec.cmd@ == f[0]
    &&& rec.options@ == f[1]
    &&& rec.speed@ == f[2]
    &&& rec.country@ == f[3]
    &&& rec.site@ == f[4]
    &&& rec.provider@ == f[5]
    &&& rec.continent@ == f[6]
    &&& rec.status@ == f[7]
}

/// `s` with every comma made a space.
pub open spec fn commas_to_spaces(s: Seq<char>) -> Seq<char> {
    s.map_values(|c: char| if c == ',' { ' ' } else { c })
}

impl UnparsedServer {
    /// The command and its options as one line of words, the options' commas
    /// made spaces.
    pub fn command_line(&self) -> (r: String)
        ensures
            r@ == self.cmd@ + " "@ + commas_to_spaces(self.options@),
    {
        let mut out = self.cmd.clone();
        out.append(" ");
        let opts = self.options.as_str();
        let cs = chars_of(opts);
        let ghost start = out@;
        let mut i: usize = 0;
        while i < cs.len()
            invariant
                cs@ == opts@,
                i <= cs@.len(),
                out@ == start + commas_to_spaces(opts@.subrange(0, i as int)),
            decreases cs@.len() - i,
        {
            if cs[i] == ',' {
                out.append(" ");
                proof {
                    reveal_strlit(" ");
                }
            } else {
                out.append(opts.substring_char(i, i + 1));
            }
            assert(out@ =~= start + commas_to_spaces(opts@.subrange(0, i + 1)));
            i = i + 1;
        }
        assert(opts@.subrange(0, i as int) =~= opts@);
        out
    }

    /// A one-line description: continent, country, site and provider, then
    /// the speed in GB/s when one is given.
    pub fn friendly(&self) -> (r: String)
        ensures
            r@ == self.continent@ + " "@ + self.country@ + " "@ + self.site@ + " "@ + self.provider@
                + (if self.speed@.len() > 0 {
                " "@ + self.speed@ + " GB/s"@
            } else {
                Seq::<char>::empty()
            }),
    {
        let mut out = self.continent.clone();
        out.append(" ");
        out.append(self.country.as_str());
        out.append(" ");
        out.append(self.site.as_str());
        out.append(" ");
        out.append(self.provider.as_str());
        if self.speed.as_str().unicode_len() > 0 {
            out.append(" ");
            out.append(self.speed.as_str());
            out.append(" GB/s");
        }
        out
    }
}

/// The server entries that rows describe, in order.
pub fn records_from_rows(rows: &Vec<Option<Vec<String>>>) -> (r: Vec<UnparsedServer>)
    ensures
        r@.len() == kept_rows(rows_view(rows@)).len(),
        forall|i: int| 0 <= i < r@.len() ==> holds_fields(#[trigger] r@[i], kept_rows(rows_view(rows@))[i]),
{
    let mut out: Vec<UnparsedServer> = Vec::new();
    let mut i: usize = 0;
    while i < rows.len()
        invariant
            i <= rows@.len(),
            out@.len() == kept_rows(rows_view(rows@.subrange(0, i as int))).len(),
            forall|k: int| 0 <= k < out@.len() ==> holds_fields(#[trigger] out@[k], kept_rows(rows_view(rows@.subrange(0, i as int)))[k]),
        decreases rows@.len() - i,
    {
        let ghost before = rows_view(rows@.subrange(0, i as int));
        let ghost after = rows_view(rows@.subrange(0, i + 1));
        assert(after.drop_last() =~= before);
        assert(after.last() == row_view(rows@[i as int]));
        match &rows[i] {
            Some(fields) => {
                if fields.len() >= 8 {
                    let rec = UnparsedServer {
                        cmd: fields[0].clone(),
                        options: fields[1].clone(),
                        speed: fields[2].clone(),
                        country: fields[3].clone(),
                        site: fields[4].clone(),
                        provider: fields[5].clone(),
                        continent: fields[6].clone(),
                        status: fields[7].clone(),
                    };
                    out.push(rec);
                }
            },
            None => {},
        }
        assert forall|k: int| 0 <= k < out@.len() implies holds_fields(#[trigger] out@[k], kept_rows(after)[k]) by {
            if k < kept_rows(before).len() {
                assert(kept_rows(after)[k] == kept_rows(before)[k]);
            }
        }
        i = i + 1;
    }
    assert(rows@.subrange(0, i as int) =~= rows@);
    out
}

/// The server entries of a list in CSV form, or `None` when it holds none.
pub fn parse_server_list(text: &str) -> (r: Option<Vec<UnparsedServer>>)
    ensures
        r is None <==> kept_rows(csv_rows(text@)).len() == 0,
        r matches Some(v) ==> v@.len() == kept_rows(csv_rows(text@)).len() && forall|i: int|
            0 <= i < v@.len() ==> holds_fields(#[trigger] v@[i], kept_rows(csv_rows(text@))[i]),
{
    let rows = read_csv_rows(text);
    let recs = records_from_rows(&rows);
    if recs.len() == 0 {
        None
    } else {
        Some(recs)
    }
}

} // verus!
