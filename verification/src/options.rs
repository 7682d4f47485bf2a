//! The options with which a table was declared.

use crate::error::{Error, ErrorView};
use vstd::prelude::*;

verus! {

/// The value of one option, under the two readings that a connector may ask for. A reading that
/// the value does not have carries the reason why.
#[derive(Debug, PartialEq, Eq)]
pub struct OptionValue {
    pub text: Result<String, String>,
    pub flag: Result<bool, String>,
}

/// The view of an `OptionValue`.
#[verifier::ext_equal]
pub struct OptionView {
    pub text: Result<Seq<char>, Seq<char>>,
    pub flag: Result<bool, Seq<char>>,
}

impl View for OptionValue {
    type V = OptionView;

    open spec fn view(&self) -> OptionView {
        OptionView {
            text: match self.text {
                Ok(text) => Ok(text@),
                Err(reason) => Err(reason@),
            },
            flag: match self.flag {
                Ok(flag) => Ok(flag),
                Err(reason) => Err(reason@),
            },
        }
    }
}

/// A table's options by name, as mathematics.
pub type Options = Map<Seq<char>, OptionView>;

/// What reading the option `name` as a string gives, if it is set.
pub open spec fn text_of(options: Options, name: Seq<char>) -> Result<Option<Seq<char>>, ErrorView> {
    if !options.dom().contains(name) {
        Ok(None)
    } else {
        match options[name].text {
            Ok(text) => Ok(Some(text)),
            Err(reason) => Err(ErrorView::InvalidOption { name, reason }),
        }
    }
}

/// What reading the option `name` as a string gives, where it has to be set.
pub open spec fn required_text_of(options: Options, name: Seq<char>) -> Result<
    Seq<char>,
    ErrorView,
> {
    match text_of(options, name) {
        Ok(Some(text)) => Ok(text),
        Ok(None) => Err(ErrorView::MissingOption { name }),
        Err(error) => Err(error),
    }
}

/// What reading the option `name` as a truth value gives, if it is set.
pub open spec fn flag_of(options: Options, name: Seq<char>) -> Result<Option<bool>, ErrorView> {
    if !options.dom().contains(name) {
        Ok(None)
    } else {
        match options[name].flag {
            Ok(flag) => Ok(Some(flag)),
            Err(reason) => Err(ErrorView::InvalidOption { name, reason }),
        }
    }
}

/// The view of a required string that was asked for.
pub open spec fn text_result(res: Result<String, Error>) -> Result<Seq<char>, ErrorView> {
    match res {
        Ok(text) => Ok(text@),
        Err(error) => Err(error@),
    }
}

/// The view of an optional string that was asked for.
pub open spec fn opt_text_result(res: Result<Option<String>, Error>) -> Result<
    Option<Seq<char>>,
    ErrorView,
> {
    match res {
        Ok(Some(text)) => Ok(Some(text@)),
        Ok(None) => Ok(None),
        Err(error) => Err(error@),
    }
}

/// The view of an optional truth value that was asked for.
pub open spec fn opt_flag_result(res: Result<Option<bool>, Error>) -> Result<
    Option<bool>,
    ErrorView,
> {
    match res {
        Ok(flag) => Ok(flag),
        Err(error) => Err(error@),
    }
}

/// A table's options. An option that is pulled is gone afterwards, so that what is left at the end
/// is what nobody asked for.
#[derive(Debug)]
pub struct ConnectorOptions {
    entries: Vec<(String, OptionValue)>,
}

impl View for ConnectorOptions {
    type V = Options;

    closed spec fn view(&self) -> Options {
        Map::new(
            |name: Seq<char>| exists|i: int| self.holds(i, name),
            |name: Seq<char>| self.entries@[choose|i: int| self.holds(i, name)].1@,
        )
    }
}

impl ConnectorOptions {
    /// No name stands twice.
    pub closed spec fn wf(&self) -> bool {
        forall|i: int, j: int|
            0 <= i < j < self.entries@.len() ==> (#[trigger] self.entries@[i]).0@ != (
            #[trigger] self.entries@[j]).0@
    }

    /// The entry at `i` is that of `name`.
    spec fn holds(&self, i: int, name: Seq<char>) -> bool {
        0 <= i < self.entries@.len() && self.entries@[i].0@ == name
    }

    proof fn lemma_entry(&self, i: int)
        requires
            self.wf(),
            0 <= i < self.entries@.len(),
        ensures
            self@.dom().contains(self.entries@[i].0@),
            self@[self.entries@[i].0@] == self.entries@[i].1@,
    {
        let name = self.entries@[i].0@;
        assert(self.holds(i, name));
        let k = choose|k: int| self.holds(k, name);
        assert(self.holds(k, name));
        assert(k == i);
    }

    proof fn lemma_absent(&self, name: Seq<char>)
        requires
            forall|i: int| 0 <= i < self.entries@.len() ==> (#[trigger] self.entries@[i]).0@ != name,
        ensures
            !self@.dom().contains(name),
    {
        assert(forall|i: int| !self.holds(i, name));
    }

    /// No options.
    pub fn new() -> (res: ConnectorOptions)
        ensures
            res.wf(),
            res@ == Map::<Seq<char>, OptionView>::empty(),
    {
        let res = ConnectorOptions { entries: Vec::new() };
        proof {
            assert(forall|i: int, name: Seq<char>| !res.holds(i, name));
            assert(res@ =~= Map::<Seq<char>, OptionView>::empty());
        }
        res
    }

    /// The place of the option `name`, or the number of options if it is not set.
    fn position(&self, name: &String) -> (res: usize)
        ensures
            res <= self.entries@.len(),
            res < self.entries@.len() ==> self.entries@[res as int].0@ == name@,
            res == self.entries@.len() ==> forall|i: int|
                0 <= i < self.entries@.len() ==> (#[trigger] self.entries@[i]).0@ != name@,
    {
        let mut i: usize = 0;
        while i < self.entries.len()
            invariant
                i <= self.entries@.len(),
                forall|j: int| 0 <= j < i ==> (#[trigger] self.entries@[j]).0@ != name@,
            decreases self.entries@.len() - i,
        {
            if self.entries[i].0 == *name {
                return i;
            }
            i = i + 1;
        }
        i
    }

    /// Whether the option `name` is set.
    pub fn contains(&self, name: &str) -> (res: bool)
        requires
            self.wf(),
        ensures
            res == self@.dom().contains(name@),
    {
        let i: usize = self.position(&name.to_string());
        proof {
            if i < self.entries@.len() {
                self.lemma_entry(i as int);
            } else {
                self.lemma_absent(name@);
            }
        }
        i < self.entries.len()
    }

    /// Takes the option `name` out, if it is set.
    fn pull(&mut self, name: &str) -> (res: Option<OptionValue>)
        requires
            old(self).wf(),
        ensures
            final(self).wf(),
            final(self)@ == old(self)@.remove(name@),
            res is Some <==> old(self)@.dom().contains(name@),
            res matches Some(value) ==> value@ == old(self)@[name@],
    {
        let i: usize = self.position(&name.to_string());
        if i < self.entries.len() {
            let ghost before = *self;
            proof {
                before.lemma_entry(i as int);
            }
            let (_, value) = self.entries.remove(i);
            proof {
                let after = *self;
                assert(after.entries@ == before.entries@.remove(i as int));
                assert forall|a: int, b: int| 0 <= a < b < after.entries@.len() implies (
                #[trigger] after.entries@[a]).0@ != (#[trigger] after.entries@[b]).0@ by {
                    let a0 = if a < i { a } else { a + 1 };
                    let b0 = if b < i { b } else { b + 1 };
                    assert(before.entries@[a0].0@ != before.entries@[b0].0@);
                }
                assert forall|n: Seq<char>|
                    #![trigger after@.dom().contains(n)]
                    #![trigger after@[n]]
                    after@.dom().contains(n) == before@.remove(name@).dom().contains(n) && (
                    after@.dom().contains(n) ==> after@[n] == before@[n]) by {
                    if after@.dom().contains(n) {
                        let a = choose|a: int| after.holds(a, n);
                        assert(after.holds(a, n));
                        let a0 = if a < i { a } else { a + 1 };
                        after.lemma_entry(a);
                        before.lemma_entry(a0);
                        assert(before.entries@[a0].0@ != before.entries@[i as int].0@);
                    } else if before@.remove(name@).dom().contains(n) {
                        let b = choose|b: int| before.holds(b, n);
                        assert(before.holds(b, n));
                        let b1 = if b < i { b } else { b - 1 };
                        assert(after.entries@[b1] == before.entries@[b]);
                        assert(after.holds(b1, n));
                    }
                }
                assert(after@ =~= before@.remove(name@));
            }
            Some(value)
        } else {
            proof {
                self.lemma_absent(name@);
                assert(self@ =~= self@.remove(name@));
            }
            None
        }
    }

    /// Sets an option, in place of what it was set to before.
    pub fn insert(&mut self, name: String, value: OptionValue)
        requires
            old(self).wf(),
        ensures
            final(self).wf(),
            final(self)@ == old(self)@.insert(name@, value@),
    {
        let _ = self.pull(name.as_str());
        let ghost before = *self;
        let ghost key = name@;
        let ghost shown = value@;
        self.entries.push((name, value));
        proof {
            let after = *self;
            let last = before.entries@.len() as int;
            assert(after.entries@.len() == last + 1);
            assert(forall|a: int| 0 <= a < last ==> after.entries@[a] == before.entries@[a]);
            assert forall|a: int, b: int| 0 <= a < b < after.entries@.len() implies (
            #[trigger] after.entries@[a]).0@ != (#[trigger] after.entries@[b]).0@ by {
                before.lemma_entry(a);
                if b < last {
                    assert(before.entries@[a].0@ != before.entries@[b].0@);
                }
            }
            after.lemma_entry(last);
            assert forall|n: Seq<char>|
                #![trigger after@.dom().contains(n)]
                #![trigger after@[n]]
                after@.dom().contains(n) == before@.insert(key, shown).dom().contains(n) && (
                after@.dom().contains(n) ==> after@[n] == before@.insert(key, shown)[n]) by {
                if after@.dom().contains(n) {
                    let a = choose|a: int| after.holds(a, n);
                    assert(after.holds(a, n));
                    after.lemma_entry(a);
                    if a < last {
                        before.lemma_entry(a);
                    }
                } else if before@.dom().contains(n) {
                    let b = choose|b: int| before.holds(b, n);
                    assert(before.holds(b, n));
                    assert(after.holds(b, n));
                }
            }
            assert(after@ =~= before@.insert(key, shown));
            assert(before@.insert(key, shown) =~= old(self)@.insert(key, shown));
        }
    }

    /// Pulls an option that is a string, if it is set.
    pub fn pull_opt_str(&mut self, name: &str) -> (res: Result<Option<String>, Error>)
        requires
            old(self).wf(),
        ensures
            final(self).wf(),
            final(self)@ == old(self)@.remove(name@),
            opt_text_result(res) == text_of(old(self)@, name@),
    {
        match self.pull(name) {
            Some(value) => match value.text {
                Ok(text) => Ok(Some(text)),
                Err(reason) => Err(Error::InvalidOption { name: name.to_string(), reason }),
            },
            None => Ok(None),
        }
    }

    /// Pulls an option that is a string and has to be set.
    pub fn pull_str(&mut self, name: &str) -> (res: Result<String, Error>)
        requires
            old(self).wf(),
        ensures
            final(self).wf(),
            final(self)@ == old(self)@.remove(name@),
            text_result(res) == required_text_of(old(self)@, name@),
    {
        match self.pull_opt_str(name) {
            Ok(Some(text)) => Ok(text),
            Ok(None) => Err(Error::MissingOption { name: name.to_string() }),
            Err(error) => Err(error),
        }
    }

    /// Pulls an option that is a truth value, if it is set.
    pub fn pull_opt_bool(&mut self, name: &str) -> (res: Result<Option<bool>, Error>)
        requires
            old(self).wf(),
        ensures
            final(self).wf(),
            final(self)@ == old(self)@.remove(name@),
            opt_flag_result(res) == flag_of(old(self)@, name@),
    {
        match self.pull(name) {
            Some(value) => match value.flag {
                Ok(flag) => Ok(Some(flag)),
                Err(reason) => Err(Error::InvalidOption { name: name.to_string(), reason }),
            },
            None => Ok(None),
        }
    }
}

} // verus!
