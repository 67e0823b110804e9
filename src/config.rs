//! A named, versioned configuration record with a debug switch.
use vstd::prelude::*;

use crate::decimal::{nat_text, push_nat};

verus! {

/// A configuration: a name, a version that starts at 1 and never changes,
/// and a debug flag.
#[derive(Debug, Clone)]
pub struct Config {
    pub name: String,
    pub version: u32,
    pub debug: bool,
}

/// The value of a `Config`, as plain data.
pub struct ConfigModel {
    pub name: Seq<char>,
    pub version: nat,
    pub debug: bool,
}

/// A fresh configuration named `name`: version 1, debug off.
pub open spec fn fresh_model(name: Seq<char>) -> ConfigModel {
    ConfigModel { name, version: 1, debug: false }
}

/// The model with its debug flag set to `debug` and all else kept.
pub open spec fn debug_set(c: ConfigModel, debug: bool) -> ConfigModel {
    ConfigModel { debug, ..c }
}

/// The model after setting the debug flag to each of `toggles` in turn.
pub open spec fn debug_set_all(c: ConfigModel, toggles: Seq<bool>) -> ConfigModel
    decreases toggles.len(),
{
    if toggles.len() == 0 {
        c
    } else {
        debug_set(debug_set_all(c, toggles.drop_last()), toggles.last())
    }
}

/// The text of a configuration: `"{name} v{version}"`.
pub open spec fn render_text(c: ConfigModel) -> Seq<char> {
    c.name + seq![' ', 'v'] + nat_text(c.version)
}

impl View for Config {
    type V = ConfigModel;

    open spec fn view(&self) -> ConfigModel {
        ConfigModel { name: self.name@, version: self.version as nat, debug: self.debug }
    }
}

impl Config {
    /// A configuration is well formed when its version is at least 1.
    pub open spec fn wf(&self) -> bool {
        self.version >= 1
    }

    /// A configuration named `name`, at version 1, with debug off.
    pub fn new(name: &str) -> (r: Config)
        ensures
            r@ == fresh_model(name@),
            r.wf(),
    {
        Config { name: name.to_owned(), version: 1, debug: false }
    }

    /// The same configuration with its debug flag set to `debug`.
    pub fn with_debug(self, debug: bool) -> (r: Config)
        ensures
            r@ == debug_set(self@, debug),
            self.wf() ==> r.wf(),
    {
        Config { debug, ..self }
    }

    /// The text `"{name} v{version}"`; the debug flag is not shown.
    pub fn render(&self) -> (r: String)
        ensures
            r@ == render_text(self@),
    {
        let mut r = self.name.clone();
        proof { reveal_strlit(" v"); }
        r.append(" v");
        push_nat(&mut r, self.version as u64);
        assert(r@ =~= render_text(self@));
        r
    }
}

/// Setting the debug flag any number of times keeps the name and leaves the
/// version of a fresh configuration at 1.
pub proof fn lemma_debug_toggles_keep_version(name: Seq<char>, toggles: Seq<bool>)
    ensures
        debug_set_all(fresh_model(name), toggles).version == 1,
        debug_set_all(fresh_model(name), toggles).name == name,
    decreases toggles.len(),
{
    if toggles.len() > 0 {
        lemma_debug_toggles_keep_version(name, toggles.drop_last());
    }
}

/// Whatever the debug flag, the rendered text shows only name and version.
pub proof fn lemma_render_ignores_debug(c: ConfigModel, debug: bool)
    ensures
        render_text(debug_set(c, debug)) == render_text(c),
{
}

} // verus!
