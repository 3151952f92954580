//! The options that a database connection is opened with.

use crate::error::AuthError;
use crate::text::same_text;
use vstd::prelude::*;

verus! {

/// The database driver that a connection goes through.
#[derive(Debug, Clone, Copy, PartialEq, Eq, Structural)]
pub enum Backend {
    Spanner,
}

/// The names and values of options, in the order in which they were given.
pub open spec fn options_view(options: Seq<(String, String)>) -> Seq<(Seq<char>, Seq<char>)> {
    options.map_values(|option: (String, String)| (option.0@, option.1@))
}

/// The value of the first option of a name.
pub open spec fn option_in(options: Seq<(Seq<char>, Seq<char>)>, name: Seq<char>) -> Option<
    Seq<char>,
>
    decreases options.len(),
{
    if options.len() == 0 {
        None
    } else if options[0].0 == name {
        Some(options[0].1)
    } else {
        option_in(options.drop_first(), name)
    }
}

/// Collects the options for opening a database.
#[derive(Debug)]
pub struct DatabaseBuilder {
    pub backend: Backend,
    pub options: Vec<(String, String)>,
}

impl View for DatabaseBuilder {
    type V = Seq<(Seq<char>, Seq<char>)>;

    open spec fn view(&self) -> Seq<(Seq<char>, Seq<char>)> {
        options_view(self.options@)
    }
}

impl DatabaseBuilder {
    pub fn new(backend: Backend) -> (builder: Self)
        ensures
            builder.backend == backend,
            builder@ == Seq::<(Seq<char>, Seq<char>)>::empty(),
    {
        DatabaseBuilder { backend, options: Vec::new() }
    }

    /// Adds an option of the driver under its name.
    pub fn with_named_option(&mut self, name: &str, value: String) -> (r: Result<(), AuthError>)
        ensures
            r is Ok,
            final(self).backend == old(self).backend,
            final(self)@ == old(self)@.push((name@, value@)),
    {
        self.options.push((name.to_owned(), value));
        assert(self@ =~= old(self)@.push((name@, value@)));
        Ok(())
    }

    /// The value of the first option of a name.
    pub fn named_option(&self, name: &str) -> (value: Option<&str>)
        ensures
            value matches Some(v) ==> option_in(self@, name@) == Some(v@),
            value is None ==> option_in(self@, name@) is None,
    {
        let ghost all = self@;
        let mut i: usize = 0;
        assert(all.skip(0) =~= all);
        while i < self.options.len()
            invariant
                i <= self.options.len(),
                all == self@,
                option_in(all, name@) == option_in(all.skip(i as int), name@),
            decreases self.options.len() - i,
        {
            assert(all.skip(i as int)[0] == (
                self.options@[i as int].0@,
                self.options@[i as int].1@,
            ));
            if same_text(self.options[i].0.as_str(), name) {
                return Some(self.options[i].1.as_str());
            }
            assert(all.skip(i as int).drop_first() =~= all.skip(i + 1));
            i = i + 1;
        }
        None
    }
}

} // verus!
