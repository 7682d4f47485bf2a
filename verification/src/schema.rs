//! The part of a connection's schema that a source carries along.

use vstd::prelude::*;

verus! {

/// A value that is handed on as it came, in its serialized form.
#[derive(Debug, PartialEq, Eq)]
pub struct Json {
    pub text: String,
}

impl View for Json {
    type V = Seq<char>;

    open spec fn view(&self) -> Seq<char> {
        self.text@
    }
}

impl Clone for Json {
    fn clone(&self) -> (res: Self)
        ensures
            res == *self,
    {
        Json { text: self.text.clone() }
    }
}

/// The view of an optional value that is handed on.
pub open spec fn opt_json(json: Option<Json>) -> Option<Seq<char>> {
    match json {
        Some(json) => Some(json@),
        None => None,
    }
}

/// The view of a list of values that are handed on.
pub open spec fn json_list(list: Seq<Json>) -> Seq<Seq<char>> {
    list.map_values(|json: Json| json@)
}

/// Copies an optional value that is handed on.
pub fn clone_opt_json(json: &Option<Json>) -> (res: Option<Json>)
    ensures
        opt_json(res) == opt_json(*json),
{
    match json {
        Some(json) => Some(json.clone()),
        None => None,
    }
}

/// Copies a list of values that are handed on.
pub fn clone_json_list(list: &Vec<Json>) -> (res: Vec<Json>)
    ensures
        json_list(res@) == json_list(list@),
{
    let mut res: Vec<Json> = Vec::new();
    let mut i: usize = 0;
    while i < list.len()
        invariant
            i <= list@.len(),
            res@ == list@.take(i as int),
        decreases list@.len() - i,
    {
        res.push(list[i].clone());
        i = i + 1;
        proof {
            assert(list@.take(i as int) =~= list@.take(i - 1).push(list@[i - 1]));
        }
    }
    proof {
        assert(list@.take(i as int) =~= list@);
    }
    res
}

/// What a table's declaration says of the data that comes through its connection.
#[derive(Debug, PartialEq, Eq)]
pub struct ConnectionSchema {
    /// How the data is written down, if that was said.
    pub format: Option<Json>,
    /// What is done with data that cannot be read, if that was said.
    pub bad_data: Option<Json>,
    /// How one message is cut into records, if that was said.
    pub framing: Option<Json>,
    /// The columns that are filled from a message's metadata.
    pub metadata_fields: Vec<Json>,
    /// The rest of the declaration.
    pub definition: Json,
}

/// The view of a `ConnectionSchema`.
#[verifier::ext_equal]
pub struct SchemaView {
    pub format: Option<Seq<char>>,
    pub bad_data: Option<Seq<char>>,
    pub framing: Option<Seq<char>>,
    pub metadata_fields: Seq<Seq<char>>,
    pub definition: Seq<char>,
}

impl View for ConnectionSchema {
    type V = SchemaView;

    open spec fn view(&self) -> SchemaView {
        SchemaView {
            format: opt_json(self.format),
            bad_data: opt_json(self.bad_data),
            framing: opt_json(self.framing),
            metadata_fields: json_list(self.metadata_fields@),
            definition: self.definition@,
        }
    }
}

impl Clone for ConnectionSchema {
    fn clone(&self) -> (res: Self)
        ensures
            res@ == self@,
    {
        ConnectionSchema {
            format: clone_opt_json(&self.format),
            bad_data: clone_opt_json(&self.bad_data),
            framing: clone_opt_json(&self.framing),
            metadata_fields: clone_json_list(&self.metadata_fields),
            definition: self.definition.clone(),
        }
    }
}

} // verus!
