//! The options of a quality table.
use crate::group::GroupBy;
use crate::limits::Threshold;
use crate::pdf::Paper;
use crate::qtable::{Align, Filter, Marks, Order, Shows};
use crate::limits::last_header;
use crate::text::{same, upper, uppercase};
use vstd::prelude::*;
use vstd::string::StringExecFns;

verus! {

/// Whether the name of the written file carries the time, and which.
#[derive(Debug, Copy, Clone, PartialEq, Eq, Structural)]
pub enum PDFTimestamp {
    Off,
    Local,
    UTC,
}

/// The options of a quality table.
#[derive(Debug, Clone, PartialEq)]
pub struct QTableProps {
    pub caption: String,
    pub captioneverypage: bool,
    pub pdffolder: String,
    pub pdffile: String,
    pub pdftimestamp: PDFTimestamp,
    pub paper: Paper,
    pub order: Order,
    /// The level of the top margin.
    pub margin: i64,
    pub fontsize: i64,
    pub align: Align,
    pub show: Shows,
    pub mark: Marks,
    pub nanstring: String,
    pub sig_digits: usize,
    pub filter: Filter,
    /// The level at and over which a reading is dropped.
    pub float_limit: i64,
    pub spec_yield_limit: Threshold,
    pub ctrl_yield_limit: Threshold,
    /// The level under which a capability index fails.
    pub cpk_limit: i64,
    pub group_by: Vec<GroupBy>,
    pub longgroupnames: bool,
    pub histogram_bins: usize,
}

/// The options that hold where nothing else is configured. The three levels
/// are the caller's: a top margin of seven, a cutoff at the largest finite
/// quantity, and a capability threshold of 1.67.
pub fn default_props(margin: i64, float_limit: i64, cpk_limit: i64) -> (props: QTableProps)
    ensures
        props.caption@ == Seq::<char>::empty(),
        props.captioneverypage,
        props.pdffolder@ == Seq::<char>::empty(),
        props.pdffile@ == Seq::<char>::empty(),
        props.pdftimestamp == PDFTimestamp::Off,
        props.paper == Paper::A4Landscape,
        props.order == Order::ByBadGood,
        props.margin == margin,
        props.fontsize == 7,
        props.align == Align::SpecLimits,
        props.show == (Shows { spec_limits: true, control_limits: true, targets: true }),
        props.mark == (Marks { spec_yield: true, control_yield: true, cpk: true }),
        props.nanstring@ == Seq::<char>::empty(),
        props.sig_digits == 4,
        props.filter == Filter::Off,
        props.float_limit == float_limit,
        props.spec_yield_limit == (Threshold { num: 100, den: 1 }),
        props.ctrl_yield_limit == (Threshold { num: 100, den: 1 }),
        props.cpk_limit == cpk_limit,
        props.group_by@ == Seq::<GroupBy>::empty(),
        !props.longgroupnames,
        props.histogram_bins == 11,
{
    QTableProps {
        caption: String::new(),
        captioneverypage: true,
        pdffolder: String::new(),
        pdffile: String::new(),
        pdftimestamp: PDFTimestamp::Off,
        paper: Paper::A4Landscape,
        order: Order::ByBadGood,
        margin,
        fontsize: 7,
        align: Align::SpecLimits,
        show: Shows::all(),
        mark: Marks::all(),
        nanstring: String::new(),
        sig_digits: 4,
        filter: Filter::Off,
        float_limit,
        spec_yield_limit: Threshold { num: 100, den: 1 },
        ctrl_yield_limit: Threshold { num: 100, den: 1 },
        cpk_limit,
        group_by: Vec::new(),
        longgroupnames: false,
        histogram_bins: 11,
    }
}

/// What a file holds.
#[derive(Debug, Copy, Clone, PartialEq, Eq, Structural)]
pub enum FileKind {
    /// Readings.
    Data,
    /// The limits of the parameters.
    Limits,
    /// Options.
    Config,
}

/// Whether one of `headers` reads `name` in upper case.
pub open spec fn has_header(headers: Seq<String>, name: Seq<char>) -> bool {
    last_header(headers, name) is Some
}

/// What a file with these headers holds: limits, if it has the columns of
/// use, of the parameter and of a limit; else options, if it has those of
/// use, of the option and of the value; else readings.
pub open spec fn kind_of(headers: Seq<String>) -> FileKind {
    let limit = has_header(headers, "LSL"@) || has_header(headers, "USL"@) || has_header(
        headers,
        "LCL"@,
    ) || has_header(headers, "UCL"@) || has_header(headers, "TGT"@);
    if has_header(headers, "USE"@) && has_header(headers, "PAR"@) && limit {
        FileKind::Limits
    } else if has_header(headers, "USE"@) && has_header(headers, "OPT"@) && has_header(
        headers,
        "VAL"@,
    ) {
        FileKind::Config
    } else {
        FileKind::Data
    }
}

/// Whether one of `headers` reads `name` in upper case.
fn with_header(headers: &Vec<String>, name: &str) -> (found: bool)
    ensures
        found == has_header(headers@, name@),
{
    let mut found: bool = false;
    let mut i: usize = 0;
    while i < headers.len()
        invariant
            i <= headers@.len(),
            found == has_header(headers@.take(i as int), name@),
        decreases headers@.len() - i,
    {
        proof {
            assert(headers@.take(i as int + 1).drop_last() =~= headers@.take(i as int));
        }
        let up: String = upper(headers[i].as_str());
        if same(up.as_str(), name) {
            found = true;
        }
        i += 1;
    }
    proof {
        assert(headers@.take(i as int) =~= headers@);
    }
    found
}

/// What a file with these headers holds.
pub fn file_kind(headers: &Vec<String>) -> (kind: FileKind)
    ensures
        kind == kind_of(headers@),
{
    let used: bool = with_header(headers, "USE");
    let limit: bool = with_header(headers, "LSL") || with_header(headers, "USL") || with_header(
        headers,
        "LCL",
    ) || with_header(headers, "UCL") || with_header(headers, "TGT");
    if used && with_header(headers, "PAR") && limit {
        FileKind::Limits
    } else if used && with_header(headers, "OPT") && with_header(headers, "VAL") {
        FileKind::Config
    } else {
        FileKind::Data
    }
}

/// A file that was handed in: its path and what it holds.
#[derive(Debug, Clone, PartialEq)]
pub struct Infile {
    pub path: String,
    pub kind: FileKind,
}

/// The paths of the data file, the limits file and the options file; empty
/// where there is none.
pub struct Chosen {
    pub dat: Seq<char>,
    pub lim: Seq<char>,
    pub cfg: Seq<char>,
}

/// The message for a second file of a kind.
pub open spec fn second_file(what: Seq<char>, first: Seq<char>, second: Seq<char>) -> Seq<char> {
    "can only read one CSV "@ + what + " file '"@ + first + "', "@ + what + " file '"@ + second
        + "' cannot be loaded."@
}

/// The message for a call without a data file.
pub open spec fn no_data_file() -> Seq<char> {
    "HINT: at least one CSV data file must be provided."@
}

/// The files that are taken from `files`, one of each kind at most, or the
/// message for the first file that is one too many. A second options file
/// is told with the path of the limits file.
pub open spec fn taken(files: Seq<Infile>) -> Result<Chosen, Seq<char>>
    decreases files.len(),
{
    if files.len() == 0 {
        Ok(Chosen { dat: Seq::empty(), lim: Seq::empty(), cfg: Seq::empty() })
    } else {
        match taken(files.drop_last()) {
            Err(message) => Err(message),
            Ok(c) => {
                let path = files.last().path@;
                match files.last().kind {
                    FileKind::Limits => if c.lim.len() == 0 {
                        Ok(Chosen { lim: path, ..c })
                    } else {
                        Err(second_file("limit"@, c.lim, path))
                    },
                    FileKind::Config => if c.cfg.len() == 0 {
                        Ok(Chosen { cfg: path, ..c })
                    } else {
                        Err(second_file("config"@, c.lim, path))
                    },
                    FileKind::Data => if c.dat.len() == 0 {
                        Ok(Chosen { dat: path, ..c })
                    } else {
                        Err(second_file("data"@, c.dat, path))
                    },
                }
            },
        }
    }
}

/// The message for a second file of a kind.
fn refuse_second(what: &str, first: &str, second: &str) -> (message: String)
    ensures
        message@ == second_file(what@, first@, second@),
{
    let mut message: String = String::from_str("can only read one CSV ");
    message.append(what);
    message.append(" file '");
    message.append(first);
    message.append("', ");
    message.append(what);
    message.append(" file '");
    message.append(second);
    message.append("' cannot be loaded.");
    message
}

/// The paths of the data file, the limits file and the options file among
/// `infiles`. A second file of a kind is refused, and a call without a data
/// file.
pub fn check_infiles(infiles: &Vec<Infile>) -> (r: Result<(String, String, String), String>)
    ensures
        match taken(infiles@) {
            Err(message) => r is Err && r->Err_0@ == message,
            Ok(c) => if c.dat.len() == 0 {
                r is Err && r->Err_0@ == no_data_file()
            } else {
                r is Ok && r->Ok_0.0@ == c.dat && r->Ok_0.1@ == c.lim && r->Ok_0.2@ == c.cfg
            },
        },
{
    let mut dat: String = String::new();
    let mut lim: String = String::new();
    let mut cfg: String = String::new();
    let mut i: usize = 0;
    while i < infiles.len()
        invariant
            i <= infiles@.len(),
            taken(infiles@.take(i as int)) == Ok::<Chosen, Seq<char>>(
                Chosen { dat: dat@, lim: lim@, cfg: cfg@ },
            ),
        decreases infiles@.len() - i,
    {
        proof {
            assert(infiles@.take(i as int + 1).drop_last() =~= infiles@.take(i as int));
        }
        let file: &Infile = &infiles[i];
        match file.kind {
            FileKind::Limits => {
                if lim.as_str().unicode_len() == 0 {
                    lim = file.path.clone();
                } else {
                    proof {
                        lemma_taken_stays(infiles@, i as int + 1);
                    }
                    return Err(refuse_second("limit", lim.as_str(), file.path.as_str()));
                }
            },
            FileKind::Config => {
                if cfg.as_str().unicode_len() == 0 {
                    cfg = file.path.clone();
                } else {
                    proof {
                        lemma_taken_stays(infiles@, i as int + 1);
                    }
                    return Err(refuse_second("config", lim.as_str(), file.path.as_str()));
                }
            },
            FileKind::Data => {
                if dat.as_str().unicode_len() == 0 {
                    dat = file.path.clone();
                } else {
                    proof {
                        lemma_taken_stays(infiles@, i as int + 1);
                    }
                    return Err(refuse_second("data", dat.as_str(), file.path.as_str()));
                }
            },
        }
        i += 1;
    }
    proof {
        assert(infiles@.take(i as int) =~= infiles@);
    }
    if dat.as_str().unicode_len() == 0 {
        return Err(String::from_str("HINT: at least one CSV data file must be provided."));
    }
    Ok((dat, lim, cfg))
}

/// A file that is refused among the first `n` is refused among all.
proof fn lemma_taken_stays(files: Seq<Infile>, n: int)
    requires
        0 <= n <= files.len(),
        taken(files.take(n)) is Err,
    ensures
        taken(files) == taken(files.take(n)),
    decreases files.len() - n,
{
    if n < files.len() {
        assert(files.take(n + 1).drop_last() =~= files.take(n));
        lemma_taken_stays(files, n + 1);
    } else {
        assert(files.take(n) =~= files);
    }
}

/// Whether `text` begins with `HINT`.
pub open spec fn is_hint(text: Seq<char>) -> bool {
    text.len() >= 4 && text.take(4) == "HINT"@
}

/// The line that tells the user of `err`: a hint as it is behind a space,
/// anything else as an error.
pub fn info(err: &str) -> (line: String)
    ensures
        line@ == (if is_hint(err@) {
            " "@ + err@
        } else {
            "ERROR: "@ + err@
        }),
{
    let hint: bool = err.unicode_len() >= 4 && same(err.substring_char(0, 4), "HINT");
    proof {
        assert(err@.subrange(0, 4) == err@.take(4));
    }
    let mut line: String = String::from_str(if hint { " " } else { "ERROR: " });
    line.append(err);
    line
}

} // verus!
