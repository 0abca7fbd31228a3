//! Rows, result sets and the stream of result sets of one query.
use vstd::prelude::*;
use crate::value::TypedValue;

verus! {

/// A named column value.
pub struct Column {
    pub name: String,
    pub value: TypedValue,
}

/// The columns of one row, in the server's column order.
pub struct Row {
    pub columns: Vec<Column>,
}

/// The rows of one statement's result, in arrival order.
pub struct ResultSet {
    pub rows: Vec<Row>,
}

/// The result sets of one query, in statement order.
pub struct ResultStream {
    pub sets: Vec<ResultSet>,
}

impl Column {
    pub fn new(name: String, value: TypedValue) -> (r: Column)
        ensures
            r.name == name,
            r.value == value,
    {
        Column { name, value }
    }
}

impl Row {
    pub fn new(columns: Vec<Column>) -> (r: Row)
        ensures
            r.columns == columns,
    {
        Row { columns }
    }

    /// The number of columns.
    pub fn len(&self) -> (r: usize)
        ensures
            r == self.columns@.len(),
    {
        self.columns.len()
    }

    /// A view of the value at `index`, valid while the row lives.
    pub fn value_as_ref(&self, index: usize) -> (r: Option<&TypedValue>)
        ensures
            index < self.columns@.len() ==> r == Some(&self.columns@[index as int].value),
            index >= self.columns@.len() ==> r is None,
    {
        if index < self.columns.len() {
            Some(&self.columns[index].value)
        } else {
            None
        }
    }

    /// The name of the column at `index`.
    pub fn column_name(&self, index: usize) -> (r: Option<&str>)
        ensures
            index < self.columns@.len() ==> (r matches Some(n) && n@ == self.columns@[index as int].name@),
            index >= self.columns@.len() ==> r is None,
    {
        if index < self.columns.len() {
            Some(self.columns[index].name.as_str())
        } else {
            None
        }
    }

    /// Consumes the row, handing out its values detached from it, in column order.
    pub fn into_values(self) -> (r: Vec<TypedValue>)
        ensures
            r@ == self.columns@.map_values(|c: Column| c.value),
    {
        let ghost all = self.columns@;
        let mut cols = self.columns;
        let mut out: Vec<TypedValue> = Vec::new();
        while cols.len() > 0
            invariant
                out@.len() + cols@.len() == all.len(),
                cols@ == all.skip(out@.len() as int),
                out@ == all.take(out@.len() as int).map_values(|c: Column| c.value),
            decreases cols@.len(),
        {
            let ghost k = out@.len() as int;
            let c = cols.remove(0);
            out.push(c.value);
            assert(cols@ =~= all.skip(k + 1));
            assert(out@ =~= all.take(k + 1).map_values(|c: Column| c.value));
        }
        assert(all.take(all.len() as int) =~= all);
        out
    }
}

impl ResultSet {
    pub fn new(rows: Vec<Row>) -> (r: ResultSet)
        ensures
            r.rows == rows,
    {
        ResultSet { rows }
    }

    /// Consumes the set, handing out its rows in arrival order.
    pub fn into_rows(self) -> (r: Vec<Row>)
        ensures
            r == self.rows,
    {
        self.rows
    }
}

impl ResultStream {
    pub fn new(sets: Vec<ResultSet>) -> (r: ResultStream)
        ensures
            r.sets == sets,
    {
        ResultStream { sets }
    }

    /// Consumes the stream, handing out its result sets in statement order.
    pub fn into_sets(self) -> (r: Vec<ResultSet>)
        ensures
            r == self.sets,
    {
        self.sets
    }
}

} // verus!
