//! The incidence matrix of the trust graph of a system, as data and as lines
//! of text.

use crate::model::{names, FbasModel};
use crate::text::{
    append_decimal, decimal, digit_char, is_digit, lemma_decimal_lacks, lemma_occurrences_concat,
    occurrences, texts,
};
use vstd::prelude::*;

verus! {

/// The incidence matrix of a membership: `N` rows of `N` cells, where cell
/// `(source, target)` says whether `source` references `target`.
pub open spec fn matrix_cells(members: Seq<Seq<usize>>) -> Seq<Seq<bool>> {
    Seq::new(
        members.len(),
        |source: int| Seq::new(members.len(), |target: int| names(members, source, target)),
    )
}

/// The character of one cell: `1` for an edge, `0` for none.
pub open spec fn bit_char(cell: bool) -> char {
    if cell {
        '1'
    } else {
        '0'
    }
}

/// The header of a matrix over `n` nodes: each identifier in ascending
/// order with a `;` before it, so that the first column is empty.
pub open spec fn matrix_header(n: nat) -> Seq<char>
    decreases n,
{
    if n == 0 {
        Seq::empty()
    } else {
        matrix_header((n - 1) as nat) + seq![';'] + decimal((n - 1) as nat)
    }
}

/// The cells of one row as text: each cell with a `;` before it.
pub open spec fn cells_text(row: Seq<bool>) -> Seq<char>
    decreases row.len(),
{
    if row.len() == 0 {
        Seq::empty()
    } else {
        cells_text(row.drop_last()) + seq![';', bit_char(row.last())]
    }
}

/// One data line of the matrix: the identifier of the source, then its cells.
pub open spec fn matrix_row(source: nat, row: Seq<bool>) -> Seq<char> {
    decimal(source) + cells_text(row)
}

/// The lines of a matrix: the header, then one line per row.
pub open spec fn matrix_lines(cells: Seq<Seq<bool>>) -> Seq<Seq<char>> {
    Seq::new(
        cells.len() + 1,
        |i: int|
            if i == 0 {
                matrix_header(cells.len())
            } else {
                matrix_row((i - 1) as nat, cells[i - 1])
            },
    )
}

/// The cells of a vector of rows, each row by its view.
pub open spec fn cell_rows(v: Seq<Vec<bool>>) -> Seq<Seq<bool>> {
    Seq::new(v.len(), |i: int| v[i]@)
}

/// Builds the incidence matrix of a model.
pub fn adjacency_matrix(model: &FbasModel) -> (cells: Vec<Vec<bool>>)
    requires
        model.wf(),
    ensures
        cell_rows(cells@) == matrix_cells(model.members()),
{
    let n: usize = model.node_count();
    let mut cells: Vec<Vec<bool>> = Vec::new();
    let mut source: usize = 0;
    while source < n
        invariant
            model.wf(),
            n == model.count(),
            source <= n,
            cells@.len() == source,
            forall|s: int|
                0 <= s < source ==> (#[trigger] cells@[s])@ == matrix_cells(
                    model.members(),
                )[s],
        decreases n - source,
    {
        let links: &Vec<usize> = model.quorum_members(source);
        let mut row: Vec<bool> = Vec::new();
        let mut t: usize = 0;
        while t < n
            invariant
                t <= n,
                row@.len() == t,
                forall|j: int| 0 <= j < t ==> !row@[j],
            decreases n - t,
        {
            row.push(false);
            t += 1;
        }
        let mut k: usize = 0;
        while k < links.len()
            invariant
                model.wf(),
                n == model.count(),
                source < n,
                links@ == model.members()[source as int],
                k <= links@.len(),
                row@.len() == n,
                forall|j: int|
                    0 <= j < n ==> (#[trigger] row@[j] <==> exists|i: int|
                        0 <= i < k && #[trigger] links@[i] == j),
            decreases links@.len() - k,
        {
            let target: usize = links[k];
            row.set(target, true);
            k += 1;
        }
        cells.push(row);
        source += 1;
    }
    cells
}

/// The text of one cell.
fn bit_text(cell: bool) -> (t: &'static str)
    ensures
        t@ == seq![';', bit_char(cell)],
{
    proof {
        reveal_strlit(";1");
        reveal_strlit(";0");
    }
    if cell {
        ";1"
    } else {
        ";0"
    }
}

/// Renders a matrix: the header over as many identifiers as there are rows,
/// then each row behind the identifier of its source.
pub fn render_matrix(cells: &Vec<Vec<bool>>) -> (lines: Vec<String>)
    ensures
        texts(lines@) == matrix_lines(cell_rows(cells@)),
{
    let n: usize = cells.len();
    let mut header: String = String::new();
    let mut source: usize = 0;
    while source < n
        invariant
            source <= n,
            header@ == matrix_header(source as nat),
        decreases n - source,
    {
        proof {
            reveal_strlit(";");
        }
        header.append(";");
        append_decimal(&mut header, source);
        source += 1;
    }
    let mut lines: Vec<String> = Vec::new();
    lines.push(header);
    let mut s: usize = 0;
    while s < n
        invariant
            n == cells@.len(),
            s <= n,
            lines@.len() == s + 1,
            lines@[0]@ == matrix_header(n as nat),
            forall|i: int|
                0 <= i < s ==> (#[trigger] lines@[i + 1])@ == matrix_row(i as nat, cells@[i]@),
        decreases n - s,
    {
        let row: &Vec<bool> = &cells[s];
        let mut line: String = String::new();
        append_decimal(&mut line, s);
        let mut t: usize = 0;
        while t < row.len()
            invariant
                t <= row@.len(),
                line@ == decimal(s as nat) + cells_text(row@.take(t as int)),
            decreases row@.len() - t,
        {
            line.append(bit_text(row[t]));
            proof {
                let next = row@.take(t + 1);
                assert(next.drop_last() =~= row@.take(t as int));
            }
            t += 1;
        }
        assert(row@.take(row@.len() as int) =~= row@);
        lines.push(line);
        s += 1;
    }
    assert forall|j: int| 0 <= j < lines@.len() implies #[trigger] texts(lines@)[j]
        == matrix_lines(cell_rows(cells@))[j] by {
        if j > 0 {
            assert(lines@[(j - 1) + 1]@ == matrix_row((j - 1) as nat, cells@[j - 1]@));
        }
    }
    lines
}

/// The adjacency matrix of a model as lines of text: the header line, then
/// one line per node in ascending order of the identifiers.
pub fn generate_adjacency_matrix(model: &FbasModel) -> (lines: Vec<String>)
    requires
        model.wf(),
    ensures
        texts(lines@) == matrix_lines(matrix_cells(model.members())),
{
    let cells: Vec<Vec<bool>> = adjacency_matrix(model);
    render_matrix(&cells)
}

/// The separator is no digit.
proof fn lemma_separator_is_no_digit()
    ensures
        !is_digit(';'),
{
    assert forall|d: nat| d < 10 implies ';' != #[trigger] digit_char(d) by {}
}

/// The header over `n` nodes holds `n` separators: an empty first column
/// and `n` identifiers.
pub proof fn lemma_header_columns(n: nat)
    ensures
        occurrences(matrix_header(n), ';') == n,
    decreases n,
{
    if n > 0 {
        let before = matrix_header((n - 1) as nat);
        lemma_header_columns((n - 1) as nat);
        lemma_separator_is_no_digit();
        lemma_decimal_lacks((n - 1) as nat, ';');
        lemma_occurrences_concat(before, seq![';'], ';');
        lemma_occurrences_concat(before + seq![';'], decimal((n - 1) as nat), ';');
        reveal_with_fuel(occurrences, 2);
    }
}

/// The cells of a row hold one separator per cell.
proof fn lemma_cells_columns(row: Seq<bool>)
    ensures
        occurrences(cells_text(row), ';') == row.len(),
    decreases row.len(),
{
    if row.len() > 0 {
        let cell = seq![';', bit_char(row.last())];
        lemma_cells_columns(row.drop_last());
        lemma_occurrences_concat(cells_text(row.drop_last()), cell, ';');
        reveal_with_fuel(occurrences, 3);
    }
}

/// A data line holds one separator per cell of its row, so it has the
/// identifier of its source and then as many values as the row has cells.
pub proof fn lemma_row_columns(source: nat, row: Seq<bool>)
    ensures
        occurrences(matrix_row(source, row), ';') == row.len(),
{
    lemma_separator_is_no_digit();
    lemma_decimal_lacks(source, ';');
    lemma_cells_columns(row);
    lemma_occurrences_concat(decimal(source), cells_text(row), ';');
}

/// The matrix of a system of `N` nodes has `N + 1` lines, the header and one
/// line per node, and each of them holds `N` separators: the header names
/// `N` identifiers behind an empty column, and a data line holds `N` cell
/// values behind the identifier of its source.
pub proof fn lemma_matrix_is_complete(members: Seq<Seq<usize>>)
    ensures
        matrix_lines(matrix_cells(members)).len() == members.len() + 1,
        forall|i: int|
            0 <= i <= members.len() ==> occurrences(
                #[trigger] matrix_lines(matrix_cells(members))[i],
                ';',
            ) == members.len(),
        forall|s: int|
            0 <= s < members.len() ==> #[trigger] matrix_lines(matrix_cells(members))[s + 1]
                == matrix_row(s as nat, matrix_cells(members)[s]) && matrix_cells(
                members,
            )[s].len() == members.len(),
{
    let cells = matrix_cells(members);
    assert forall|i: int| 0 <= i <= members.len() implies occurrences(
        #[trigger] matrix_lines(cells)[i],
        ';',
    ) == members.len() by {
        if i == 0 {
            lemma_header_columns(members.len());
        } else {
            lemma_row_columns((i - 1) as nat, cells[i - 1]);
        }
    }
}

} // verus!
