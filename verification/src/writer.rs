//! What is written where: the names of the two output files, their
//! contents, and the decision whether they may be written at all. Touching
//! the file system is left to the caller, who reports what it found there.

use crate::graph::GraphForm;
use crate::text::texts;
use vstd::prelude::*;

verus! {

/// Why nothing was written.
#[derive(Debug, PartialEq, Eq)]
pub enum WriteError {
    /// There is no output directory to write into.
    InvalidDirectory,
    /// The file exists and overwriting was not asked for.
    PathExists { path: String },
    /// The file system refused an operation on the file.
    IoFailure { path: String, cause: String },
}

/// The text that describes an error to the operator.
pub open spec fn error_text(error: WriteError) -> Seq<char> {
    match error {
        WriteError::InvalidDirectory => "invalid directory path"@,
        WriteError::PathExists { path } => "File "@ + path@
            + " exists. Refusing to overwrite.\n Use --overwrite if this is intended."@,
        WriteError::IoFailure { path, cause } => "Error writing file "@ + path@ + ": "@ + cause@,
    }
}

impl WriteError {
    /// The text that describes the error to the operator: the offending
    /// path and the remedy for a file that exists, the path and the cause
    /// for a failure of the file system.
    pub fn message(&self) -> (text: String)
        ensures
            text@ == error_text(*self),
    {
        match self {
            WriteError::InvalidDirectory => String::from_str("invalid directory path"),
            WriteError::PathExists { path } => {
                let mut text: String = String::from_str("File ");
                text.append(path.as_str());
                text.append(
                    " exists. Refusing to overwrite.\n Use --overwrite if this is intended.",
                );
                text
            },
            WriteError::IoFailure { path, cause } => {
                let mut text: String = String::from_str("Error writing file ");
                text.append(path.as_str());
                text.append(": ");
                text.append(cause.as_str());
                text
            },
        }
    }
}

/// The directory that is written into where none is given.
pub open spec fn default_directory() -> Seq<char> {
    "graphs"@
}

/// The name of the output directory: the one given, or the default.
pub fn output_dir_name(path: Option<String>) -> (dir: String)
    ensures
        dir@ == match path {
            Some(given) => given@,
            None => default_directory(),
        },
{
    match path {
        Some(given) => given,
        None => String::from_str("graphs"),
    }
}

/// What follows the base name in the name of the graph file.
pub open spec fn graph_suffix(form: GraphForm) -> Seq<char> {
    match form {
        GraphForm::List => "_adjacency_list"@,
        GraphForm::Matrix => "_adjacency_matrix"@,
    }
}

/// The path of the node list: `{dir}/{base}_nodelist.csv`.
pub open spec fn node_list_path(dir: Seq<char>, base: Seq<char>) -> Seq<char> {
    dir + "/"@ + base + "_nodelist"@ + ".csv"@
}

/// The path of the graph file: `{dir}/{base}_adjacency_list.csv` for the
/// list form, `{dir}/{base}_adjacency_matrix.csv` for the matrix.
pub open spec fn graph_path(dir: Seq<char>, base: Seq<char>, form: GraphForm) -> Seq<char> {
    dir + "/"@ + base + graph_suffix(form) + ".csv"@
}

/// The path of the node list.
pub fn node_list_file_name(dir: &str, base: &str) -> (name: String)
    ensures
        name@ == node_list_path(dir@, base@),
{
    let mut name: String = String::from_str(dir);
    name.append("/");
    name.append(base);
    name.append("_nodelist");
    name.append(".csv");
    name
}

/// The path of the graph file.
pub fn graph_file_name(dir: &str, base: &str, form: GraphForm) -> (name: String)
    ensures
        name@ == graph_path(dir@, base@, form),
{
    let mut name: String = String::from_str(dir);
    name.append("/");
    name.append(base);
    match form {
        GraphForm::List => name.append("_adjacency_list"),
        GraphForm::Matrix => name.append("_adjacency_matrix"),
    }
    name.append(".csv");
    name
}

/// The first line of every node list.
pub open spec fn node_list_header() -> Seq<char> {
    "Id,Label,weight\n"@
}

/// The lines one after the other, with nothing between them.
pub open spec fn concat(lines: Seq<Seq<char>>) -> Seq<char>
    decreases lines.len(),
{
    if lines.len() == 0 {
        Seq::empty()
    } else {
        concat(lines.drop_last()) + lines.last()
    }
}

/// The lines one after the other, each closed by a line feed.
pub open spec fn concat_closed(lines: Seq<Seq<char>>) -> Seq<char>
    decreases lines.len(),
{
    if lines.len() == 0 {
        Seq::empty()
    } else {
        concat_closed(lines.drop_last()) + lines.last() + seq!['\n']
    }
}

/// The contents of the node list: the header line, then the lines of the
/// report as they are, each of which closes itself.
pub fn node_list_contents(node_list: &Vec<String>) -> (contents: String)
    ensures
        contents@ == node_list_header() + concat(texts(node_list@)),
{
    let mut contents: String = String::from_str("Id,Label,weight\n");
    let mut i: usize = 0;
    while i < node_list.len()
        invariant
            i <= node_list@.len(),
            contents@ == node_list_header() + concat(texts(node_list@).take(i as int)),
        decreases node_list@.len() - i,
    {
        contents.append(node_list[i].as_str());
        proof {
            let next = texts(node_list@).take(i + 1);
            assert(next.drop_last() =~= texts(node_list@).take(i as int));
        }
        i += 1;
    }
    assert(texts(node_list@).take(node_list@.len() as int) =~= texts(node_list@));
    contents
}

/// The contents of the graph file: each line of the graph, closed by a line
/// feed.
pub fn graph_contents(graph: &Vec<String>) -> (contents: String)
    ensures
        contents@ == concat_closed(texts(graph@)),
{
    let mut contents: String = String::new();
    let mut i: usize = 0;
    while i < graph.len()
        invariant
            i <= graph@.len(),
            contents@ == concat_closed(texts(graph@).take(i as int)),
        decreases graph@.len() - i,
    {
        proof {
            reveal_strlit("\n");
        }
        contents.append(graph[i].as_str());
        contents.append("\n");
        proof {
            let next = texts(graph@).take(i + 1);
            assert(next.drop_last() =~= texts(graph@).take(i as int));
        }
        i += 1;
    }
    assert(texts(graph@).take(graph@.len() as int) =~= texts(graph@));
    contents
}

/// The paths of the two files of one run.
#[derive(Debug, PartialEq, Eq)]
pub struct OutputPaths {
    /// Where the node list goes.
    pub node_list: String,
    /// Where the graph goes.
    pub graph: String,
}

/// The paths of the two files of one run. Without a directory there are
/// none.
pub fn output_paths(output_dir: Option<String>, base: &str, form: GraphForm) -> (paths: Result<
    OutputPaths,
    WriteError,
>)
    ensures
        output_dir is None <==> paths is Err,
        paths matches Err(error) ==> error == WriteError::InvalidDirectory,
        paths matches Ok(found) ==> output_dir matches Some(dir) && found.node_list@
            == node_list_path(dir@, base@) && found.graph@ == graph_path(dir@, base@, form),
{
    match output_dir {
        Some(dir) => Ok(
            OutputPaths {
                node_list: node_list_file_name(dir.as_str(), base),
                graph: graph_file_name(dir.as_str(), base, form),
            },
        ),
        None => Err(WriteError::InvalidDirectory),
    }
}

/// One file to write: where, and what.
#[derive(Debug, PartialEq, Eq)]
pub struct FileImage {
    /// The path of the file.
    pub path: String,
    /// Everything that the file holds once it is written.
    pub contents: String,
}

/// The two files of one run, which are written together or not at all.
#[derive(Debug, PartialEq, Eq)]
pub struct OutputPlan {
    /// The node list.
    pub node_list: FileImage,
    /// The graph.
    pub graph: FileImage,
}

/// Whether a file may be written: always where overwriting is asked for, and
/// else only where the file does not exist yet.
pub open spec fn may_write(exists: bool, overwrite: bool) -> bool {
    overwrite || !exists
}

/// Decides on both files of a run before either is touched. `node_list_exists`
/// and `graph_exists` say what the caller found at the two paths. Where one
/// may not be written the run is refused with the path in the way, that of
/// the node list first, and no plan is handed out; else the plan holds both
/// files whole.
pub fn plan_output(
    paths: OutputPaths,
    node_list: &Vec<String>,
    graph: &Vec<String>,
    overwrite: bool,
    node_list_exists: bool,
    graph_exists: bool,
) -> (plan: Result<OutputPlan, WriteError>)
    ensures
        plan is Ok <==> may_write(node_list_exists, overwrite) && may_write(
            graph_exists,
            overwrite,
        ),
        plan matches Ok(writes) ==> {
            &&& writes.node_list.path@ == paths.node_list@
            &&& writes.node_list.contents@ == node_list_header() + concat(texts(node_list@))
            &&& writes.graph.path@ == paths.graph@
            &&& writes.graph.contents@ == concat_closed(texts(graph@))
        },
        plan matches Err(error) ==> error matches WriteError::PathExists { path } && path@
            == if !may_write(node_list_exists, overwrite) {
            paths.node_list@
        } else {
            paths.graph@
        },
{
    if !overwrite && node_list_exists {
        return Err(WriteError::PathExists { path: paths.node_list });
    }
    if !overwrite && graph_exists {
        return Err(WriteError::PathExists { path: paths.graph });
    }
    Ok(
        OutputPlan {
            node_list: FileImage { path: paths.node_list, contents: node_list_contents(node_list) },
            graph: FileImage { path: paths.graph, contents: graph_contents(graph) },
        },
    )
}

} // verus!
