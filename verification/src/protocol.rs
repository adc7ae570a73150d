//! What the library asks of its caller and what the caller answers. The
//! library never touches the runtime or the system itself: it hands out one
//! request at a time and is resumed with the answer.

use crate::il2cpp::api::{Il2CppError, Library};
use crate::il2cpp::module::FunctionPtr;
use vstd::prelude::*;
use vstd::string::*;

verus! {

/// Why a run was given up.
#[derive(PartialEq, Eq, Structural, Clone, Copy, Debug)]
pub enum DumpError {
    /// The runtime or a library failed.
    Runtime(Il2CppError),
    /// The method offsets could not be serialized.
    Serialize,
    /// An output file could not be created or written.
    Io,
    /// The answer does not fit the request it was given for, or there was
    /// no request to answer.
    Protocol,
}

impl DumpError {
    pub open spec fn message_text(self) -> Seq<char> {
        match self {
            DumpError::Runtime(e) => e.message_text(),
            DumpError::Serialize => "failed to serialize the method offsets"@,
            DumpError::Io => "failed to write an output file"@,
            DumpError::Protocol => "unexpected answer to a request"@,
        }
    }

    /// The description of the error, as it is shown to the user.
    pub fn message(&self) -> (text: String)
        ensures
            text@ == self.message_text(),
    {
        match self {
            DumpError::Runtime(e) => e.message(),
            DumpError::Serialize => String::from_str("failed to serialize the method offsets"),
            DumpError::Io => String::from_str("failed to write an output file"),
            DumpError::Protocol => String::from_str("unexpected answer to a request"),
        }
    }
}

/// One question to the runtime.
#[derive(PartialEq, Eq, Structural, Clone, Copy, Debug)]
pub enum Query {
    /// Call a bound entry point as its signature says. `argument` is the
    /// handle it takes, if it takes one; `index` is the index it takes, or
    /// the value of the cursor before the call.
    Call { function: FunctionPtr, argument: usize, index: usize },
    /// Read the machine word that lies `offset` bytes behind `base`.
    ReadPointer { base: usize, offset: usize },
    /// Read the 16-bit number that lies `offset` bytes behind `base`.
    ReadHalf { base: usize, offset: usize },
    /// Read the machine word at place `index` of the array at `base`.
    ReadElement { base: usize, index: usize },
}

/// What a walk does next.
#[derive(PartialEq, Eq, Structural, Clone, Copy, Debug)]
pub enum Step {
    /// The caller puts the question to the runtime and resumes the walk
    /// with the answer.
    Ask(Query),
    /// The walk has come to its end.
    Finished,
    /// The walk was given up.
    Failed(DumpError),
}

/// The answer to a request.
pub enum Response {
    /// The request was carried out and has nothing to tell.
    Nothing,
    /// A handle, an address or a count.
    Word(usize),
    /// The address of an array and the count that the callee filled in.
    Counted { list: usize, count: usize },
    /// The item that a cursor call returned and the cursor after the call.
    Cursor { item: usize, cursor: usize },
    /// The bytes of zero-terminated text without the zero, or nothing where
    /// the callee returned null.
    Text(Option<Vec<u8>>),
    /// A truth value.
    Flag(bool),
    /// A signed 32-bit number.
    Signed(i32),
    /// An unsigned 32-bit number.
    Unsigned(u32),
    /// A 16-bit number.
    Half(u16),
    /// A copy of the slots of a table.
    Table(Vec<usize>),
    /// The size of a mapped image, or nothing where the system could not
    /// tell it.
    Image(Option<u32>),
    /// The path of a file as text, or nothing where the path is no text.
    Path(Option<String>),
}

/// An answer as the contracts see it.
pub enum ResponseView {
    Nothing,
    Word(usize),
    Counted { list: usize, count: usize },
    Cursor { item: usize, cursor: usize },
    Text(Option<Seq<u8>>),
    Flag(bool),
    Signed(i32),
    Unsigned(u32),
    Half(u16),
    Table(Seq<usize>),
    Image(Option<u32>),
    Path(Option<Seq<char>>),
}

impl View for Response {
    type V = ResponseView;

    open spec fn view(&self) -> ResponseView {
        match self {
            Response::Nothing => ResponseView::Nothing,
            Response::Word(word) => ResponseView::Word(*word),
            Response::Counted { list, count } => ResponseView::Counted {
                list: *list,
                count: *count,
            },
            Response::Cursor { item, cursor } => ResponseView::Cursor {
                item: *item,
                cursor: *cursor,
            },
            Response::Text(text) => ResponseView::Text(
                match text {
                    Some(bytes) => Some(bytes@),
                    None => None,
                },
            ),
            Response::Flag(flag) => ResponseView::Flag(*flag),
            Response::Signed(number) => ResponseView::Signed(*number),
            Response::Unsigned(number) => ResponseView::Unsigned(*number),
            Response::Half(number) => ResponseView::Half(*number),
            Response::Table(table) => ResponseView::Table(table@),
            Response::Image(size) => ResponseView::Image(*size),
            Response::Path(path) => ResponseView::Path(
                match path {
                    Some(text) => Some(text@),
                    None => None,
                },
            ),
        }
    }
}

/// What the dumper asks of its caller.
pub enum Request {
    /// Wait for the given number of seconds.
    Sleep { seconds: u64 },
    /// Open a console for the process.
    OpenConsole,
    /// Print a line to the console.
    Print { line: String },
    /// Find the directory of the running executable; answered with a flag
    /// that says whether there is one.
    Root,
    /// Look whether the file of a library lies in that directory; answered
    /// with a flag.
    Exists { library: Library },
    /// Tell the path of a library's file.
    Path { library: Library },
    /// Map the library whose zero-terminated path is given into the
    /// process; answered with the handle, which is null where that failed.
    Load { name: Vec<u8> },
    /// Query the size of the mapped image behind a handle.
    Image { handle: usize },
    /// Copy the first `count` machine words of the table that lies `offset`
    /// bytes behind `base`.
    ReadTable { base: usize, offset: usize, count: usize },
    /// Put a question to the runtime.
    Ask(Query),
    /// Write a file into the current directory; answered with a flag that
    /// says whether the file was written in full.
    Write { file: String, contents: String },
    /// The run is over and went well.
    Finish,
    /// The run is over and was given up; the line describes why.
    Fail { error: DumpError, line: String },
}

/// A request as the contracts see it.
pub enum RequestView {
    Sleep { seconds: u64 },
    OpenConsole,
    Print { line: Seq<char> },
    Root,
    Exists { library: Library },
    Path { library: Library },
    Load { name: Seq<u8> },
    Image { handle: usize },
    ReadTable { base: usize, offset: usize, count: usize },
    Ask(Query),
    Write { file: Seq<char>, contents: Seq<char> },
    Finish,
    Fail { error: DumpError, line: Seq<char> },
}

impl View for Request {
    type V = RequestView;

    open spec fn view(&self) -> RequestView {
        match self {
            Request::Sleep { seconds } => RequestView::Sleep { seconds: *seconds },
            Request::OpenConsole => RequestView::OpenConsole,
            Request::Print { line } => RequestView::Print { line: line@ },
            Request::Root => RequestView::Root,
            Request::Exists { library } => RequestView::Exists { library: *library },
            Request::Path { library } => RequestView::Path { library: *library },
            Request::Load { name } => RequestView::Load { name: name@ },
            Request::Image { handle } => RequestView::Image { handle: *handle },
            Request::ReadTable { base, offset, count } => RequestView::ReadTable {
                base: *base,
                offset: *offset,
                count: *count,
            },
            Request::Ask(query) => RequestView::Ask(*query),
            Request::Write { file, contents } => RequestView::Write {
                file: file@,
                contents: contents@,
            },
            Request::Finish => RequestView::Finish,
            Request::Fail { error, line } => RequestView::Fail { error: *error, line: line@ },
        }
    }
}

} // verus!
