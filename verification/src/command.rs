//! What the service asks of its storage: one statement with its parameters.

use vstd::prelude::*;

verus! {

/// The statement that makes the table, where it does not exist yet: an
/// identifier that the storage assigns, a name and a price.
pub const CREATE_TABLE: &'static str =
    "CREATE TABLE IF NOT EXISTS products (id SERIAL PRIMARY KEY, name VARCHAR NOT NULL, price INT NOT NULL)";

/// The statement that stores a new record.
pub const INSERT: &'static str = "INSERT INTO products (name,price) VALUES ($1,$2)";

/// The statement that fetches the record with a given identifier.
pub const SELECT_ONE: &'static str = "SELECT * FROM products WHERE id=$1";

/// The statement that fetches every record.
pub const SELECT_ALL: &'static str = "SELECT * FROM products";

/// The statement that fetches the records whose price is below a limit.
pub const SELECT_BELOW: &'static str = "SELECT * FROM products WHERE price<$1";

/// The statement that gives the record with a given identifier a new name and
/// a new price.
pub const UPDATE: &'static str = "UPDATE products SET name = $1 , price = $2 WHERE id = $3";

/// The statement that removes the record with a given identifier.
pub const DELETE: &'static str = "DELETE FROM products WHERE id=$1";

/// One request to the storage.
#[derive(Debug, Clone, PartialEq, Eq)]
pub enum Command {
    /// Store a new record with this name and price.
    Insert { name: String, price: i32 },
    /// Fetch the record with this identifier.
    SelectOne { id: i32 },
    /// Fetch every record.
    SelectAll,
    /// Fetch the records whose price is less than `price`.
    SelectBelow { price: i32 },
    /// Give the record with this identifier this name and price.
    Update { id: i32, name: String, price: i32 },
    /// Remove the record with this identifier.
    Delete { id: i32 },
}

/// A request to the storage as a mathematical value.
pub enum CommandView {
    Insert { name: Seq<char>, price: int },
    SelectOne { id: int },
    SelectAll,
    SelectBelow { price: int },
    Update { id: int, name: Seq<char>, price: int },
    Delete { id: int },
}

/// A value that takes the place of `$1`, `$2` or `$3` in a statement.
#[derive(Debug, Clone, PartialEq, Eq)]
pub enum Param {
    Text(String),
    Int(i32),
}

/// A parameter as a mathematical value.
pub enum ParamView {
    Text(Seq<char>),
    Int(int),
}

impl View for Command {
    type V = CommandView;

    open spec fn view(&self) -> CommandView {
        match *self {
            Command::Insert { name, price } => CommandView::Insert {
                name: name@,
                price: price as int,
            },
            Command::SelectOne { id } => CommandView::SelectOne { id: id as int },
            Command::SelectAll => CommandView::SelectAll,
            Command::SelectBelow { price } => CommandView::SelectBelow { price: price as int },
            Command::Update { id, name, price } => CommandView::Update {
                id: id as int,
                name: name@,
                price: price as int,
            },
            Command::Delete { id } => CommandView::Delete { id: id as int },
        }
    }
}

impl View for Param {
    type V = ParamView;

    open spec fn view(&self) -> ParamView {
        match *self {
            Param::Text(text) => ParamView::Text(text@),
            Param::Int(v) => ParamView::Int(v as int),
        }
    }
}

impl CommandView {
    /// The statement to run.
    pub open spec fn statement(self) -> Seq<char> {
        match self {
            CommandView::Insert { .. } => INSERT@,
            CommandView::SelectOne { .. } => SELECT_ONE@,
            CommandView::SelectAll => SELECT_ALL@,
            CommandView::SelectBelow { .. } => SELECT_BELOW@,
            CommandView::Update { .. } => UPDATE@,
            CommandView::Delete { .. } => DELETE@,
        }
    }

    /// The values for `$1`, `$2` and `$3` of the statement, in that order.
    pub open spec fn parameters(self) -> Seq<ParamView> {
        match self {
            CommandView::Insert { name, price } => seq![ParamView::Text(name), ParamView::Int(price)],
            CommandView::SelectOne { id } => seq![ParamView::Int(id)],
            CommandView::SelectAll => seq![],
            CommandView::SelectBelow { price } => seq![ParamView::Int(price)],
            CommandView::Update { id, name, price } => seq![
                ParamView::Text(name),
                ParamView::Int(price),
                ParamView::Int(id),
            ],
            CommandView::Delete { id } => seq![ParamView::Int(id)],
        }
    }

    /// Whether the statement answers with records, and not with the number of
    /// records that it changed.
    pub open spec fn is_query(self) -> bool {
        self is SelectOne || self is SelectAll || self is SelectBelow
    }
}

/// The views of `params`, in order.
pub open spec fn param_views(params: Seq<Param>) -> Seq<ParamView> {
    params.map_values(|param: Param| param@)
}

impl Command {
    /// The statement to run. Every value of the request is a parameter of it:
    /// none is written into the statement's text.
    pub fn statement(&self) -> (sql: &'static str)
        ensures
            sql@ == self@.statement(),
    {
        match self {
            Command::Insert { .. } => INSERT,
            Command::SelectOne { .. } => SELECT_ONE,
            Command::SelectAll => SELECT_ALL,
            Command::SelectBelow { .. } => SELECT_BELOW,
            Command::Update { .. } => UPDATE,
            Command::Delete { .. } => DELETE,
        }
    }

    /// The values for `$1`, `$2` and `$3` of the statement, in that order.
    pub fn parameters(&self) -> (params: Vec<Param>)
        ensures
            param_views(params@) == self@.parameters(),
    {
        let mut params: Vec<Param> = Vec::new();
        match self {
            Command::Insert { name, price } => {
                params.push(Param::Text(name.clone()));
                params.push(Param::Int(*price));
            },
            Command::SelectOne { id } => {
                params.push(Param::Int(*id));
            },
            Command::SelectAll => {},
            Command::SelectBelow { price } => {
                params.push(Param::Int(*price));
            },
            Command::Update { id, name, price } => {
                params.push(Param::Text(name.clone()));
                params.push(Param::Int(*price));
                params.push(Param::Int(*id));
            },
            Command::Delete { id } => {
                params.push(Param::Int(*id));
            },
        }
        assert(param_views(params@) =~= self@.parameters());
        params
    }

    /// Whether the statement answers with records, and not with the number of
    /// records that it changed.
    pub fn is_query(&self) -> (b: bool)
        ensures
            b == self@.is_query(),
    {
        match self {
            Command::SelectOne { .. } | Command::SelectAll | Command::SelectBelow { .. } => true,
            _ => false,
        }
    }
}

} // verus!
