//! Operations on whole files: a CSV file laid out as an aligned table.
use vstd::prelude::*;
use vstd::string::StringExecFns;

use crate::text::{push_char, str_equals};

verus! {

/// A whole-file operation, chosen by name.
#[derive(Debug, Clone, Copy, PartialEq, Eq, Structural)]
pub enum FileOp {
    Csv,
}

/// The header row and the records of a CSV text, read with the `csv` crate's
/// default settings (comma separated, first row a header, every row as long as
/// the header), or `None` where it is not such a text.
pub uninterp spec fn csv_table_of(data: Seq<char>) -> Option<(Seq<Seq<char>>, Seq<Seq<Seq<char>>>)>;

/// Relies on `csv::Reader::from_reader` with `headers` and `records`: the header
/// row and the records of `data`, or the reader's error as text.
#[verifier::external_body]
fn read_csv(data: &str) -> (r: Result<(Vec<String>, Vec<Vec<String>>), String>)
    ensures
        match r {
            Ok((h, rs)) => csv_table_of(data@) == Some((h.deep_view(), rs.deep_view())),
            Err(_) => csv_table_of(data@) is None,
        },
{
    let mut reader = csv::Reader::from_reader(data.as_bytes());
    let header = reader.headers().map_err(|e| e.to_string())?.iter().map(String::from).collect();
    let records: Result<Vec<csv::StringRecord>, csv::Error> = reader.records().collect();
    let records = records.map_err(|e| e.to_string())?;
    Ok((header, records.iter().map(|r| r.iter().map(String::from).collect()).collect()))
}

/// The number of cells of the longest row.
pub open spec fn max_cols(rows: Seq<Seq<Seq<char>>>) -> nat
    decreases rows.len(),
{
    if rows.len() == 0 {
        0
    } else {
        let rest = max_cols(rows.drop_last());
        if rows.last().len() > rest {
            rows.last().len()
        } else {
            rest
        }
    }
}

/// Characters in cell `c` of `row`; none for a cell the row lacks.
pub open spec fn cell_len(row: Seq<Seq<char>>, c: int) -> nat {
    if 0 <= c < row.len() {
        row[c].len()
    } else {
        0
    }
}

/// The width of column `c`: its longest cell.
pub open spec fn col_width(rows: Seq<Seq<Seq<char>>>, c: int) -> nat
    decreases rows.len(),
{
    if rows.len() == 0 {
        0
    } else {
        let rest = col_width(rows.drop_last(), c);
        if cell_len(rows.last(), c) > rest {
            cell_len(rows.last(), c)
        } else {
            rest
        }
    }
}

/// Cell `c` of `row`, empty where the row lacks it.
pub open spec fn cell(row: Seq<Seq<char>>, c: int) -> Seq<char> {
    if 0 <= c < row.len() {
        row[c]
    } else {
        Seq::empty()
    }
}

/// `n` copies of `ch`.
pub open spec fn repeated(ch: char, n: nat) -> Seq<char> {
    Seq::new(n, |i: int| ch)
}

/// `f` followed by spaces up to `w` characters.
pub open spec fn padded(f: Seq<char>, w: nat) -> Seq<char> {
    if f.len() < w {
        f + repeated(' ', (w - f.len()) as nat)
    } else {
        f
    }
}

/// The first `k` cells of `row`, each padded to its column's width, with
/// `sep` between columns.
pub open spec fn row_cells(row: Seq<Seq<char>>, widths: Seq<nat>, sep: Seq<char>, k: int) -> Seq<
    char,
>
    decreases k,
{
    if k <= 0 {
        Seq::empty()
    } else {
        row_cells(row, widths, sep, k - 1) + padded(cell(row, k - 1), widths[k - 1]) + if k
            < widths.len() {
            sep
        } else {
            Seq::empty()
        }
    }
}

/// One row of the table, ended by a newline.
pub open spec fn row_line(row: Seq<Seq<char>>, widths: Seq<nat>, sep: Seq<char>) -> Seq<char> {
    row_cells(row, widths, sep, widths.len() as int).push('\n')
}

/// The first `k` columns of the line under the header: dashes as wide as
/// the columns and the separators.
pub open spec fn rule_cells(widths: Seq<nat>, sep_len: nat, k: int) -> Seq<char>
    decreases k,
{
    if k <= 0 {
        Seq::empty()
    } else {
        rule_cells(widths, sep_len, k - 1) + repeated('-', widths[k - 1]) + if k
            < widths.len() {
            repeated('-', sep_len)
        } else {
            Seq::empty()
        }
    }
}

/// The first `k` records, one line each.
pub open spec fn record_lines(
    records: Seq<Seq<Seq<char>>>,
    widths: Seq<nat>,
    sep: Seq<char>,
    k: int,
) -> Seq<char>
    decreases k,
{
    if k <= 0 {
        Seq::empty()
    } else {
        record_lines(records, widths, sep, k - 1) + row_line(records[k - 1], widths, sep)
    }
}

/// A table as values: an optional header row, the records, the column separator.
pub struct TableModel {
    pub header: Option<Seq<Seq<char>>>,
    pub records: Seq<Seq<Seq<char>>>,
    pub col_sep: Seq<char>,
}

/// The header, if any, then the records.
pub open spec fn rows_of(t: TableModel) -> Seq<Seq<Seq<char>>> {
    match t.header {
        Some(h) => seq![h] + t.records,
        None => t.records,
    }
}

/// The widths of all columns.
pub open spec fn widths_of(rows: Seq<Seq<Seq<char>>>) -> Seq<nat> {
    Seq::new(max_cols(rows), |c: int| col_width(rows, c))
}

/// The laid-out table: with a header, its line and a line of dashes under it;
/// then a line per record. Every column is as wide as its longest cell.
pub open spec fn table_text(t: TableModel, widths: Seq<nat>) -> Seq<char> {
    let head = match t.header {
        Some(h) => row_line(h, widths, t.col_sep) + rule_cells(
            widths,
            t.col_sep.len(),
            widths.len() as int,
        ).push('\n'),
        None => Seq::<char>::empty(),
    };
    head + record_lines(t.records, widths, t.col_sep, t.records.len() as int)
}

/// Column widths as numbers.
pub open spec fn nat_widths(w: Seq<usize>) -> Seq<nat> {
    w.map_values(|x: usize| x as nat)
}

/// The table laid out with each column as wide as its longest cell.
pub open spec fn layout(t: TableModel) -> Seq<char> {
    table_text(t, widths_of(rows_of(t)))
}

/// Rows laid out as a table with aligned columns.
pub struct OrderlyTableLayout {
    header: Option<Vec<String>>,
    records: Vec<Vec<String>>,
    col_sep: String,
}

impl View for OrderlyTableLayout {
    type V = TableModel;

    closed spec fn view(&self) -> TableModel {
        TableModel {
            header: match self.header {
                Some(h) => Some(h.deep_view()),
                None => None,
            },
            records: self.records.deep_view(),
            col_sep: self.col_sep@,
        }
    }
}

proof fn lemma_row_fits(rows: Seq<Seq<Seq<char>>>, i: int)
    requires
        0 <= i < rows.len(),
    ensures
        rows[i].len() <= max_cols(rows),
    decreases rows.len(),
{
    if i < rows.len() - 1 {
        lemma_row_fits(rows.drop_last(), i);
    }
}

proof fn lemma_width_bound(rows: Seq<Seq<Seq<char>>>, c: int, bound: nat)
    requires
        forall|i: int| 0 <= i < rows.len() ==> #[trigger] cell_len(rows[i], c) <= bound,
    ensures
        col_width(rows, c) <= bound,
    decreases rows.len(),
{
    if rows.len() > 0 {
        assert forall|i: int| 0 <= i < rows.drop_last().len() implies #[trigger] cell_len(
            rows.drop_last()[i],
            c,
        ) <= bound by {
            assert(rows.drop_last()[i] == rows[i]);
        }
        lemma_width_bound(rows.drop_last(), c, bound);
        assert(cell_len(rows[rows.len() - 1], c) <= bound);
    }
}

/// Appends `n` copies of `ch` to `out`.
fn push_repeated(out: &mut String, ch: char, n: usize)
    ensures
        final(out)@ == old(out)@ + repeated(ch, n as nat),
{
    let mut i: usize = 0;
    while i < n
        invariant
            i <= n,
            out@ == old(out)@ + repeated(ch, i as nat),
        decreases n - i,
    {
        push_char(out, ch);
        i += 1;
        assert(out@ =~= old(out)@ + repeated(ch, i as nat));
    }
}

/// Appends the line of `row` to `out`.
fn push_row(out: &mut String, row: &Vec<String>, widths: &Vec<usize>, sep: &String)
    ensures
        final(out)@ == old(out)@ + row_line(row.deep_view(), nat_widths(widths@), sep@),
{
    let ghost r = row.deep_view();
    let n = widths.len();
    let mut c: usize = 0;
    while c < n
        invariant
            n == widths@.len(),
            c <= n,
            r == row.deep_view(),
            out@ == old(out)@ + row_cells(r, nat_widths(widths@), sep@, c as int),
        decreases n - c,
    {
        let ghost before = out@;
        let field: &str = if c < row.len() {
            row[c].as_str()
        } else {
            ""
        };
        proof {
            reveal_strlit("");
            if c < row@.len() {
                assert(r[c as int] == row@[c as int]@);
            }
            assert(field@ =~= cell(r, c as int));
        }
        out.append(field);
        let len = field.unicode_len();
        if len < widths[c] {
            push_repeated(out, ' ', widths[c] - len);
        }
        assert(out@ == before + padded(cell(r, c as int), nat_widths(widths@)[c as int]));
        if c + 1 < n {
            out.append(sep.as_str());
        }
        c += 1;
    }
    push_char(out, '\n');
}

/// Appends the line of dashes under the header to `out`.
fn push_rule(out: &mut String, widths: &Vec<usize>, sep_len: usize)
    ensures
        final(out)@ == old(out)@ + rule_cells(nat_widths(widths@), sep_len as nat, widths@.len() as int),
{
    let n = widths.len();
    let mut c: usize = 0;
    while c < n
        invariant
            n == widths@.len(),
            c <= n,
            out@ == old(out)@ + rule_cells(nat_widths(widths@), sep_len as nat, c as int),
        decreases n - c,
    {
        push_repeated(out, '-', widths[c]);
        if c + 1 < n {
            push_repeated(out, '-', sep_len);
        }
        c += 1;
    }
}

impl OrderlyTableLayout {
    /// A table of `records`, with no header, separated by a space.
    pub fn new(records: Vec<Vec<String>>) -> (r: Self)
        ensures
            r@ == (TableModel {
                header: None,
                records: records.deep_view(),
                col_sep: " "@,
            }),
    {
        OrderlyTableLayout { header: None, records, col_sep: String::from_str(" ") }
    }

    pub fn with_header(self, header: Vec<String>) -> (r: Self)
        ensures
            r@ == (TableModel { header: Some(header.deep_view()), ..self@ }),
    {
        OrderlyTableLayout { header: Some(header), records: self.records, col_sep: self.col_sep }
    }

    pub fn add_record(self, record: Vec<String>) -> (r: Self)
        ensures
            r@ == (TableModel { records: self@.records.push(record.deep_view()), ..self@ }),
    {
        let mut records = self.records;
        records.push(record);
        assert(records.deep_view() =~= self@.records.push(record.deep_view()));
        OrderlyTableLayout { header: self.header, records, col_sep: self.col_sep }
    }

    pub fn with_col_sep(self, col_sep: &str) -> (r: Self)
        ensures
            r@ == (TableModel { col_sep: col_sep@, ..self@ }),
    {
        OrderlyTableLayout {
            header: self.header,
            records: self.records,
            col_sep: String::from_str(col_sep),
        }
    }

    /// The header, if any, then the records.
    fn row(&self, k: usize) -> (r: &Vec<String>)
        requires
            k < rows_of(self@).len(),
        ensures
            r.deep_view() == rows_of(self@)[k as int],
    {
        match &self.header {
            Some(h) => if k == 0 {
                h
            } else {
                &self.records[k - 1]
            },
            None => &self.records[k],
        }
    }

    fn row_count(&self) -> (r: usize)
        requires
            self.records@.len() < usize::MAX,
        ensures
            r == rows_of(self@).len(),
    {
        match &self.header {
            Some(_) => self.records.len() + 1,
            None => self.records.len(),
        }
    }

    /// The number of cells of the longest row.
    pub fn get_max_cols(&self) -> (r: usize)
        requires
            self@.records.len() < usize::MAX,
        ensures
            r == max_cols(rows_of(self@)),
    {
        let ghost rows = rows_of(self@);
        let n = self.row_count();
        let mut best: usize = 0;
        let mut k: usize = 0;
        while k < n
            invariant
                n == rows.len(),
                rows == rows_of(self@),
                k <= n,
                self@.records.len() < usize::MAX,
                best == max_cols(rows.take(k as int)),
            decreases n - k,
        {
            let row = self.row(k);
            assert(rows.take(k + 1).drop_last() =~= rows.take(k as int));
            if row.len() > best {
                best = row.len();
            }
            k += 1;
        }
        assert(rows.take(n as int) =~= rows);
        best
    }

    /// The width of every column.
    pub fn get_max_width_per_column(&self) -> (r: Vec<usize>)
        requires
            self@.records.len() < usize::MAX,
        ensures
            r@.len() == max_cols(rows_of(self@)),
            forall|c: int| 0 <= c < r@.len() ==> r@[c] == col_width(rows_of(self@), c),
    {
        let ghost rows = rows_of(self@);
        let ncols = self.get_max_cols();
        let mut widths: Vec<usize> = vec![0usize; ncols];
        let n = self.row_count();
        let mut k: usize = 0;
        while k < n
            invariant
                n == rows.len(),
                rows == rows_of(self@),
                k <= n,
                ncols == max_cols(rows),
                self@.records.len() < usize::MAX,
                widths@.len() == ncols,
                forall|c: int| 0 <= c < ncols ==> widths@[c] == col_width(rows.take(k as int), c),
            decreases n - k,
        {
            let row = self.row(k);
            proof {
                lemma_row_fits(rows, k as int);
            }
            let ghost prev = widths@;
            let m = row.len();
            let mut j: usize = 0;
            while j < m
                invariant
                    m == row@.len(),
                    m <= ncols,
                    j <= m,
                    widths@.len() == ncols,
                    row.deep_view() == rows[k as int],
                    forall|c: int|
                        0 <= c < ncols ==> widths@[c] == if c < j {
                            if cell_len(rows[k as int], c) > prev[c] {
                                cell_len(rows[k as int], c)
                            } else {
                                prev[c] as nat
                            }
                        } else {
                            prev[c] as nat
                        },
                decreases m - j,
            {
                let len = row[j].unicode_len();
                assert(row.deep_view()[j as int] == row@[j as int]@);
                if len > widths[j] {
                    widths.set(j, len);
                }
                j += 1;
            }
            assert(rows.take(k + 1).drop_last() =~= rows.take(k as int));
            k += 1;
        }
        assert(rows.take(n as int) =~= rows);
        widths
    }

    /// The table laid out as text.
    pub fn render(&self) -> (r: String)
        requires
            self@.records.len() < usize::MAX,
        ensures
            r@ == layout(self@),
    {
        let widths = self.get_max_width_per_column();
        let mut out = String::new();
        match &self.header {
            Some(h) => {
                push_row(&mut out, h, &widths, &self.col_sep);
                push_rule(&mut out, &widths, self.col_sep.unicode_len());
                push_char(&mut out, '\n');
            },
            None => {},
        }
        let ghost head = out@;
        let n = self.records.len();
        let mut k: usize = 0;
        while k < n
            invariant
                n == self@.records.len(),
                k <= n,
                out@ == head + record_lines(self@.records, nat_widths(widths@), self@.col_sep, k as int),
            decreases n - k,
        {
            assert(self.records@[k as int].deep_view() == self@.records[k as int]);
            push_row(&mut out, &self.records[k], &widths, &self.col_sep);
            k += 1;
        }
        assert(nat_widths(widths@) =~= widths_of(rows_of(self@)));
        assert(out@ =~= table_text(self@, nat_widths(widths@)));
        out
    }
}

/// What laying out the CSV text `data` gives: an error where it is not CSV,
/// else the table with its header and columns separated by ` | `.
pub open spec fn csv_outcome(data: Seq<char>, r: Result<String, String>) -> bool {
    match csv_table_of(data) {
        None => r is Err,
        Some((h, rs)) => rs.len() < usize::MAX ==> (r matches Ok(text) && text@ == layout(
            TableModel { header: Some(h), records: rs, col_sep: " | "@ },
        )),
    }
}

/// Lays out a CSV text as a table with a header, columns separated by ` | `.
pub fn csv(data: &str) -> (r: Result<String, String>)
    ensures
        csv_outcome(data@, r),
{
    let (header, records) = match read_csv(data) {
        Ok(t) => t,
        Err(e) => return Err(e),
    };
    if records.len() == usize::MAX {
        return Err(String::from_str("too many records"));
    }
    let printer = OrderlyTableLayout::new(records).with_header(header).with_col_sep(" | ");
    Ok(printer.render())
}

impl FileOp {
    /// The operation named `s`, if any.
    pub fn parse(s: &str) -> (r: Option<FileOp>)
        ensures
            r == if s@ == "csv"@ {
                Some(FileOp::Csv)
            } else {
                None
            },
    {
        if str_equals(s, "csv") {
            Some(FileOp::Csv)
        } else {
            None
        }
    }
}

} // verus!
