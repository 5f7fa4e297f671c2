//! Running the cells of a notebook, one after the other, in a kernel that the
//! caller holds.

use crate::json;
use crate::json::{whole_number, Json, JsonModel};
use crate::text;
use crate::text::{decimal, is_blank, same_text, signed_decimal};
use crate::tools::notebook;
use crate::tools::notebook::{
    cell_source, cell_type_of, ipynb_outputs, render_notebook_cell, CellResult,
};
use vstd::prelude::*;
use vstd::string::*;

verus! {

/// Why a run ended.
#[derive(Debug, PartialEq, Eq)]
pub enum RunEnd {
    /// It has not, or only because there are no more cells.
    Running,
    TimedOut,
    Failed(String),
}

/// Why a run ended, as a model.
#[verifier::ext_equal]
pub enum EndModel {
    Running,
    TimedOut,
    Failed(Seq<char>),
}

/// The model of a run.
#[verifier::ext_equal]
pub struct RunModel {
    pub path: Seq<char>,
    /// Whether outputs go into the document.
    pub write: bool,
    /// The cells to run.
    pub indices: Seq<nat>,
    /// How many of them are behind.
    pub at: nat,
    pub doc: JsonModel,
    pub report: Seq<char>,
    /// How many cells got outputs.
    pub written: nat,
    pub end: EndModel,
}

/// A run over the cells of a notebook.
pub struct NotebookRun {
    path: String,
    write: bool,
    indices: Vec<usize>,
    at: usize,
    doc: Json,
    report: String,
    written: u64,
    end: RunEnd,
}

/// Indices as natural numbers.
pub open spec fn naturals(v: Seq<usize>) -> Seq<nat> {
    v.map_values(|i: usize| i as nat)
}

impl View for NotebookRun {
    type V = RunModel;

    closed spec fn view(&self) -> RunModel {
        RunModel {
            path: self.path@,
            write: self.write,
            indices: naturals(self.indices@),
            at: self.at as nat,
            doc: self.doc@,
            report: self.report@,
            written: self.written as nat,
            end: match self.end {
                RunEnd::Running => EndModel::Running,
                RunEnd::TimedOut => EndModel::TimedOut,
                RunEnd::Failed(s) => EndModel::Failed(s@),
            },
        }
    }
}

impl RunModel {
    /// Whether the run is over cells that the notebook has.
    pub open spec fn wf(self) -> bool {
        &&& notebook::cells_of(self.doc) matches Some(cells) && forall|i: int|
            0 <= i < self.indices.len() ==> #[trigger] self.indices[i] < cells.len()
        &&& self.at <= self.indices.len()
        &&& self.written <= self.at
    }

    /// The cell whose turn it is.
    pub open spec fn current(self) -> JsonModel {
        notebook::cells_of(self.doc)->0[self.indices[self.at as int] as int]
    }

    /// The code that the kernel has to run next.
    pub open spec fn pending(self) -> Option<Seq<char>> {
        if self.end is Running && self.at < self.indices.len() {
            Some(notebook::source_of(self.current()))
        } else {
            None
        }
    }

    /// The run behind the empty cells whose turn it is.
    pub open spec fn skipped(self) -> RunModel
        decreases self.indices.len() - self.at,
    {
        match self.pending() {
            Some(code) => if text::blank(code) {
                (RunModel {
                    at: self.at + 1,
                    report: self.report + "["@ + text::numeral(self.indices[self.at as int])
                        + "] code cell is empty — skipped\n"@,
                    ..self
                }).skipped()
            } else {
                self
            },
            None => self,
        }
    }

    /// The document with the outputs of the cell whose turn it is.
    pub open spec fn filled(self, cell: CellResult) -> JsonModel {
        let value = json::with_field(
            json::with_field(
                self.current(),
                "outputs"@,
                JsonModel::List(notebook::outputs_of(cell)),
            ),
            "execution_count"@,
            json::whole((self.written + 1) as u64),
        );
        json::with_field(
            self.doc,
            "cells"@,
            JsonModel::List(
                notebook::cells_of(self.doc)->0.update(
                    self.indices[self.at as int] as int,
                    value,
                ),
            ),
        )
    }

    /// The run with what the kernel gave for the cell whose turn it is.
    pub open spec fn accepted(self, outcome: Result<CellResult, String>) -> RunModel {
        let index = text::numeral(self.indices[self.at as int]);
        match outcome {
            Err(e) => RunModel {
                end: EndModel::Failed(
                    "notebook execute failed in cell "@ + index + ": "@ + e@,
                ),
                ..self
            },
            Ok(cell) => {
                let line = self.report + "["@ + index + "] "@ + notebook::reported(cell) + "\n"@;
                if cell.timed_out() {
                    RunModel {
                        at: self.at + 1,
                        report: line
                            + "    (kernel timed out — respawned on the next call; remaining cells skipped)\n"@,
                        end: EndModel::TimedOut,
                        ..self
                    }
                } else if self.write {
                    RunModel {
                        at: self.at + 1,
                        report: line,
                        doc: self.filled(cell),
                        written: self.written + 1,
                        ..self
                    }
                } else {
                    RunModel { at: self.at + 1, report: line, ..self }
                }
            },
        }
    }

    /// What the run reports.
    pub open spec fn text(self) -> Seq<char> {
        if self.written > 0 {
            self.report + "wrote outputs to "@ + self.path + "\n"@
        } else {
            self.report
        }
    }
}

/// The code cells among the first `n` cells.
pub open spec fn code_cells(cells: Seq<JsonModel>, n: nat) -> Seq<nat>
    decreases n,
{
    if n == 0 {
        Seq::empty()
    } else {
        let before = code_cells(cells, (n - 1) as nat);
        if notebook::cell_kind(cells[n - 1]) == "code"@ {
            before.push((n - 1) as nat)
        } else {
            before
        }
    }
}

/// The cells that a call selects: the one it names, or all code cells.
pub open spec fn selected(cells: Seq<JsonModel>, cell: Option<i64>) -> Seq<nat> {
    match cell {
        Some(i) => seq![i as nat],
        None => code_cells(cells, cells.len()),
    }
}

/// How a run starts.
pub enum RunOpening {
    /// There is nothing to run.
    Nothing(String),
    Run(NotebookRun),
}

proof fn lemma_code_cells(cells: Seq<JsonModel>, n: nat)
    requires
        n <= cells.len(),
    ensures
        forall|i: int|
            0 <= i < code_cells(cells, n).len() ==> #[trigger] code_cells(cells, n)[i] < n,
    decreases n,
{
    if n > 0 {
        lemma_code_cells(cells, (n - 1) as nat);
        let before = code_cells(cells, (n - 1) as nat);
        let after = code_cells(cells, n);
        assert forall|i: int| 0 <= i < after.len() implies #[trigger] after[i] < n by {
            if i < before.len() {
                assert(after[i] == before[i]);
            }
        }
    }
}

fn select_code(cells: &Vec<Json>) -> (r: Vec<usize>)
    ensures
        naturals(r@) == code_cells(json::models(cells@), cells@.len()),
{
    let mut r: Vec<usize> = Vec::new();
    let mut i: usize = 0;
    let ghost items = json::models(cells@);
    assert(naturals(r@) =~= Seq::<nat>::empty());
    while i < cells.len()
        invariant
            i <= cells@.len(),
            items == json::models(cells@),
            naturals(r@) == code_cells(items, i as nat),
        decreases cells@.len() - i,
    {
        assert(items[i as int] == cells@[i as int]@);
        if same_text(cell_type_of(&cells[i]), "code") {
            let ghost before = r@;
            r.push(i);
            assert(naturals(r@) =~= naturals(before).push(i as nat));
        }
        i += 1;
    }
    r
}

/// What a run comes to.
pub struct ReportModel {
    pub text: Seq<char>,
    pub document: Option<JsonModel>,
    pub keep_kernel: bool,
}

impl RunModel {
    /// What the run comes to once it has ended.
    pub open spec fn outcome(self) -> Result<ReportModel, Seq<char>> {
        match self.end {
            EndModel::Failed(e) => Err(e),
            _ => Ok(
                ReportModel {
                    text: self.text(),
                    document: if self.written > 0 {
                        Some(self.doc)
                    } else {
                        None
                    },
                    keep_kernel: self.end is Running,
                },
            ),
        }
    }
}

/// What starts when a notebook is to be run.
pub enum OpeningModel {
    Refused(Seq<char>),
    Nothing(Seq<char>),
    Run(RunModel),
}

/// The start of a run over one cell, or over all code cells.
pub open spec fn opening(
    path: Seq<char>,
    doc: JsonModel,
    cell: Option<i64>,
    write: bool,
) -> OpeningModel {
    match notebook::cells_of(doc) {
        None => OpeningModel::Refused("notebook has no cells"@),
        Some(cells) => if cell is Some && !(0 <= cell->0 < cells.len()) {
            OpeningModel::Refused(
                "notebook execute `cell` "@ + text::signed_numeral(cell->0 as int)
                    + " is out of range (notebook has "@ + text::numeral(cells.len())
                    + " cells)"@,
            )
        } else if selected(cells, cell).len() == 0 {
            OpeningModel::Nothing("notebook: "@ + path + " — no code cells to execute"@)
        } else {
            OpeningModel::Run(
                RunModel {
                    path,
                    write,
                    indices: selected(cells, cell),
                    at: 0,
                    doc,
                    report: Seq::empty(),
                    written: 0,
                    end: EndModel::Running,
                },
            )
        },
    }
}

/// Starts a run over one cell, or over all code cells.
pub fn run_notebook_execute(path: &str, doc: Json, cell: Option<i64>, write: bool) -> (r: Result<
    RunOpening,
    String,
>)
    ensures
        match r {
            Err(e) => opening(path@, doc@, cell, write) == OpeningModel::Refused(e@),
            Ok(RunOpening::Nothing(s)) => opening(path@, doc@, cell, write)
                == OpeningModel::Nothing(s@),
            Ok(RunOpening::Run(run)) => opening(path@, doc@, cell, write) == OpeningModel::Run(
                run@,
            ),
        },
        match notebook::cells_of(doc@) {
            None => r matches Err(e) && e@ == "notebook has no cells"@,
            Some(cells) => match cell {
                Some(i) if i < 0 || i >= cells.len() => r matches Err(e) && e@
                    == "notebook execute `cell` "@ + text::signed_numeral(i as int)
                    + " is out of range (notebook has "@ + text::numeral(cells.len())
                    + " cells)"@,
                _ => if selected(cells, cell).len() == 0 {
                    r matches Ok(RunOpening::Nothing(s)) && s@ == "notebook: "@ + path@
                        + " — no code cells to execute"@
                } else {
                    r matches Ok(RunOpening::Run(run)) && run@.wf() && run@ == (RunModel {
                        path: path@,
                        write,
                        indices: selected(cells, cell),
                        at: 0,
                        doc: doc@,
                        report: Seq::empty(),
                        written: 0,
                        end: EndModel::Running,
                    })
                },
            },
        },
{
    let indices = match doc.list_at("cells") {
        Some(cells) => match cell {
            Some(index) => {
                if index < 0 || index as u64 >= cells.len() as u64 {
                    return Err(
                        "notebook execute `cell` ".to_owned().concat(
                            signed_decimal(index).as_str(),
                        ).concat(" is out of range (notebook has ").concat(
                            decimal(cells.len() as u64).as_str(),
                        ).concat(" cells)"),
                    );
                }
                let mut one: Vec<usize> = Vec::new();
                one.push(index as usize);
                assert(naturals(one@) =~= seq![index as nat]);
                one
            },
            None => {
                proof {
                    lemma_code_cells(json::models(cells@), cells@.len());
                }
                select_code(cells)
            },
        },
        None => {
            return Err("notebook has no cells".to_owned());
        },
    };
    if indices.len() == 0 {
        return Ok(
            RunOpening::Nothing(
                "notebook: ".to_owned().concat(path).concat(" — no code cells to execute"),
            ),
        );
    }
    let run = NotebookRun {
        path: path.to_owned(),
        write,
        indices,
        at: 0,
        doc,
        report: String::new(),
        written: 0,
        end: RunEnd::Running,
    };
    assert(run@.report =~= Seq::<char>::empty());
    Ok(RunOpening::Run(run))
}

/// Puts the outputs of a cell into the document.
fn fill_cell(doc: &mut Json, index: usize, outputs: Json, count: u64)
    requires
        notebook::cells_of(old(doc)@) matches Some(cells) && index < cells.len(),
    ensures
        final(doc)@ == json::with_field(
            old(doc)@,
            "cells"@,
            JsonModel::List(
                notebook::cells_of(old(doc)@)->0.update(
                    index as int,
                    json::with_field(
                        json::with_field(
                            notebook::cells_of(old(doc)@)->0[index as int],
                            "outputs"@,
                            outputs@,
                        ),
                        "execution_count"@,
                        json::whole(count),
                    ),
                ),
            ),
        ),
{
    let ghost cells = notebook::cells_of(doc@)->0;
    let mut at: usize = 0;
    if let Json::Object(members) = doc {
        proof {
            json::lemma_object_view(*members);
        }
        let ghost before = json::member_models(members@);
        at = json::member_index(members, "cells");
        proof {
            json::lemma_first_key(before, "cells"@, JsonModel::Null, at as int);
        }
        if let Json::List(items) = &mut members[at].1 {
            proof {
                json::lemma_list_view(*items);
            }
            let cell = &mut items[index];
            cell.set("outputs", outputs);
            cell.set("execution_count", whole_number(count));
        }
    }
    proof {
        let before = (*old(doc))->Object_0;
        let after = (*doc)->Object_0;
        json::lemma_object_view(before);
        json::lemma_object_view(after);
        let items = before@[at as int].1->List_0;
        let changed = after@[at as int].1->List_0;
        json::lemma_list_view(items);
        json::lemma_list_view(changed);
        let cell = changed@[index as int]@;
        assert(json::models(changed@) =~= cells.update(index as int, cell));
        json::lemma_first_key(
            json::member_models(before@),
            "cells"@,
            JsonModel::List(cells.update(index as int, cell)),
            at as int,
        );
        assert(json::member_models(after@) =~= json::member_models(before@).update(
            at as int,
            ("cells"@, JsonModel::List(cells.update(index as int, cell))),
        ));
    }
}

/// What a run leaves behind.
pub struct RunReport {
    pub text: String,
    /// The document, where it has to be written back.
    pub document: Option<Json>,
    /// Whether the kernel goes on living.
    pub keep_kernel: bool,
}

impl NotebookRun {
    /// Passes over empty cells and gives the code that the kernel has to run next.
    pub fn next_code(&mut self) -> (r: Option<String>)
        requires
            old(self)@.wf(),
        ensures
            final(self)@ == old(self)@.skipped(),
            final(self)@.wf(),
            match r {
                Some(code) => final(self)@.pending() == Some(code@) && !text::blank(code@),
                None => final(self)@.pending() is None,
            },
    {
        let ghost start = self@;
        loop
            invariant
                self@.wf(),
                start == old(self)@,
                self@.skipped() == start.skipped(),
            decreases self@.indices.len() - self@.at,
        {
            let running: bool = match &self.end {
                RunEnd::Running => true,
                _ => false,
            };
            if !running || self.at >= self.indices.len() {
                return None;
            }
            let index: usize = self.indices[self.at];
            assert(self@.indices[self.at as int] == index);
            let code = match self.doc.list_at("cells") {
                Some(cells) => {
                    assert(json::models(cells@)[index as int] == cells@[index as int]@);
                    cell_source(&cells[index])
                },
                None => {
                    return None;
                },
            };
            assert(self@.pending() == Some(code@));
            if !is_blank(code.as_str()) {
                return Some(code);
            }
            let ghost before = self@;
            self.report = self.report.clone().concat("[").concat(
                decimal(index as u64).as_str(),
            ).concat("] code cell is empty — skipped\n");
            self.at = self.at + 1;
            assert(self@ == (RunModel {
                at: before.at + 1,
                report: before.report + "["@ + text::numeral(before.indices[before.at as int])
                    + "] code cell is empty — skipped\n"@,
                ..before
            }));
        }
    }

    /// Takes what the kernel gave for the code that it had to run.
    pub fn accept(&mut self, outcome: Result<CellResult, String>)
        requires
            old(self)@.wf(),
            old(self)@.pending() is Some,
        ensures
            final(self)@ == old(self)@.accepted(outcome),
            final(self)@.wf(),
    {
        let ghost before = self@;
        let n: usize = self.indices.len();
        assert(before.at < n && before.written <= before.at);
        let index: usize = self.indices[self.at];
        assert(before.indices[before.at as int] == index);
        let number = decimal(index as u64);
        match outcome {
            Err(e) => {
                self.end = RunEnd::Failed(
                    "notebook execute failed in cell ".to_owned().concat(number.as_str()).concat(
                        ": ",
                    ).concat(e.as_str()),
                );
                assert(self@ == before.accepted(outcome));
            },
            Ok(cell) => {
                self.report = self.report.clone().concat("[").concat(number.as_str()).concat(
                    "] ",
                ).concat(render_notebook_cell(&cell).as_str()).concat("\n");
                if cell.is_timeout() {
                    self.end = RunEnd::TimedOut;
                    self.report = self.report.clone().concat(
                        "    (kernel timed out — respawned on the next call; remaining cells skipped)\n",
                    );
                } else if self.write {
                    fill_cell(&mut self.doc, index, ipynb_outputs(&cell), self.written + 1);
                    self.written = self.written + 1;
                    proof {
                        lemma_filled_cells(before, cell);
                    }
                }
                self.at = self.at + 1;
                assert(self@ == before.accepted(outcome));
            },
        }
    }

    /// Ends the run.
    pub fn finish(self) -> (r: Result<RunReport, String>)
        requires
            self@.wf(),
            self@.pending() is None,
        ensures
            match r {
                Err(e) => self@.outcome() == Err::<ReportModel, Seq<char>>(e@),
                Ok(report) => self@.outcome() == Ok::<ReportModel, Seq<char>>(
                    ReportModel {
                        text: report.text@,
                        document: match report.document {
                            Some(doc) => Some(doc@),
                            None => None,
                        },
                        keep_kernel: report.keep_kernel,
                    },
                ),
            },
            match self@.end {
                EndModel::Failed(e) => r matches Err(s) && s@ == e,
                end => r matches Ok(report) && report.text@ == self@.text()
                    && report.keep_kernel == (end is Running) && match report.document {
                    Some(doc) => self@.written > 0 && doc@ == self@.doc,
                    None => self@.written == 0,
                },
            },
    {
        let keep_kernel: bool = match self.end {
            RunEnd::Running => true,
            RunEnd::TimedOut => false,
            RunEnd::Failed(e) => {
                return Err(e);
            },
        };
        if self.written > 0 {
            Ok(
                RunReport {
                    text: self.report.concat("wrote outputs to ").concat(
                        self.path.as_str(),
                    ).concat("\n"),
                    document: Some(self.doc),
                    keep_kernel,
                },
            )
        } else {
            Ok(RunReport { text: self.report, document: None, keep_kernel })
        }
    }
}

proof fn lemma_filled_cells(m: RunModel, cell: CellResult)
    requires
        m.wf(),
        m.pending() is Some,
    ensures
        ({
            let cells = notebook::cells_of(m.doc)->0;
            let after = notebook::cells_of(m.filled(cell));
            let index = m.indices[m.at as int] as int;
            &&& after is Some
            &&& after->0.len() == cells.len()
            &&& forall|j: int|
                0 <= j < cells.len() && j != index ==> #[trigger] after->0[j] == cells[j]
            &&& after->0[index] == json::with_field(
                json::with_field(
                    cells[index],
                    "outputs"@,
                    JsonModel::List(notebook::outputs_of(cell)),
                ),
                "execution_count"@,
                json::whole((m.written + 1) as u64),
            )
        }),
{
    let cells = notebook::cells_of(m.doc)->0;
    let index = m.indices[m.at as int] as int;
    let value = json::with_field(
        json::with_field(
            m.current(),
            "outputs"@,
            JsonModel::List(notebook::outputs_of(cell)),
        ),
        "execution_count"@,
        json::whole((m.written + 1) as u64),
    );
    json::law_set_is_read_back(
        m.doc,
        "cells"@,
        JsonModel::List(cells.update(index, value)),
        "cells"@,
    );
}

/// Running cells changes the document only where its outputs are to be written.
pub proof fn law_document_is_kept_without_write(
    m: RunModel,
    outcome: Result<CellResult, String>,
)
    requires
        m.wf(),
    ensures
        m.skipped().doc == m.doc,
        !m.write ==> m.accepted(outcome).doc == m.doc && (m.written == 0 ==> m.accepted(
            outcome,
        ).written == 0),
    decreases m.indices.len() - m.at,
{
    match m.pending() {
        Some(code) => {
            if text::blank(code) {
                let next = RunModel {
                    at: m.at + 1,
                    report: m.report + "["@ + text::numeral(m.indices[m.at as int])
                        + "] code cell is empty — skipped\n"@,
                    ..m
                };
                law_document_is_kept_without_write(next, outcome);
            }
        },
        None => {},
    }
}

/// Writing the outputs of a cell keeps every other field of the document, every
/// other cell, and every other field of the cell.
pub proof fn law_write_keeps_everything_else(
    m: RunModel,
    cell: CellResult,
    key: Seq<char>,
    j: int,
)
    requires
        m.wf(),
        m.pending() matches Some(code) && !text::blank(code),
        m.write,
        !cell.timed_out(),
    ensures
        ({
            let after = m.accepted(Ok(cell)).doc;
            let cells = notebook::cells_of(m.doc)->0;
            let index = m.indices[m.at as int] as int;
            &&& key != "cells"@ ==> json::at(after, key) == json::at(m.doc, key)
            &&& notebook::cells_of(after) matches Some(changed) && changed.len() == cells.len() && (
            0 <= j < cells.len() && j != index ==> changed[j] == cells[j]) && json::at(
                changed[index],
                "outputs"@,
            ) == Some(JsonModel::List(notebook::outputs_of(cell))) && json::at(
                changed[index],
                "execution_count"@,
            ) == Some(json::whole((m.written + 1) as u64)) && (key != "outputs"@ && key
                != "execution_count"@ ==> json::at(changed[index], key) == json::at(
                cells[index],
                key,
            ))
        }),
{
    let cells = notebook::cells_of(m.doc)->0;
    let index = m.indices[m.at as int] as int;
    let outputs = JsonModel::List(notebook::outputs_of(cell));
    let count = json::whole((m.written + 1) as u64);
    lemma_filled_cells(m, cell);
    let once = json::with_field(cells[index], "outputs"@, outputs);
    let value = json::with_field(once, "execution_count"@, count);
    json::law_set_is_read_back(
        m.doc,
        "cells"@,
        JsonModel::List(cells.update(index, value)),
        key,
    );
    lemma_source_needs_object(cells[index]);
    reveal_strlit("outputs");
    reveal_strlit("execution_count");
    assert("outputs"@.len() != "execution_count"@.len());
    json::law_set_is_read_back(cells[index], "outputs"@, outputs, key);
    json::law_set_is_read_back(once, "execution_count"@, count, key);
    json::law_set_is_read_back(once, "execution_count"@, count, "outputs"@);
}

proof fn lemma_source_needs_object(cell: JsonModel)
    requires
        !text::blank(notebook::source_of(cell)),
    ensures
        cell is Object,
{
    if !(cell is Object) {
        assert(notebook::source_of(cell) =~= Seq::<char>::empty());
    }
}

/// A cell that runs out of time ends the run: no cell behind it runs, and the
/// kernel does not go on living. The outputs of that cell are not written.
pub proof fn law_timeout_ends_the_run(m: RunModel, cell: CellResult)
    requires
        m.wf(),
        m.pending() is Some,
        cell.timed_out(),
    ensures
        m.accepted(Ok(cell)).pending() is None,
        m.accepted(Ok(cell)).end == EndModel::TimedOut,
        m.accepted(Ok(cell)).doc == m.doc,
{
}

/// An error in a cell does not end the run, unless it ran out of time.
pub proof fn law_errors_do_not_end_the_run(m: RunModel, cell: CellResult)
    requires
        m.wf(),
        m.pending() is Some,
        !cell.timed_out(),
        m.at + 1 < m.indices.len(),
    ensures
        m.accepted(Ok(cell)).pending() is Some,
{
}

} // verus!
