use vstd::prelude::*;
use vstd::hash_map::StringHashMap;

verus! {

/// The configuration key whose value `process` returns.
pub open spec fn output_key() -> Seq<char> {
    seq!['o', 'u', 't', 'p', 'u', 't']
}

/// What `process` returns when the configuration has no output key.
pub open spec fn default_output() -> Seq<char> {
    seq!['d', 'e', 'f', 'a', 'u', 'l', 't']
}

/// The output a configuration resolves to: the value stored under the
/// output key, or the default when that key is absent.
pub open spec fn resolved_output(config: Map<Seq<char>, String>) -> Seq<char> {
    if config.contains_key(output_key()) {
        config[output_key()]@
    } else {
        default_output()
    }
}

/// Resolves output behaviour from a string-keyed configuration that it owns
/// and never changes.
pub struct DataProcessor {
    config: StringHashMap<String>,
}

impl View for DataProcessor {
    type V = Map<Seq<char>, String>;

    closed spec fn view(&self) -> Map<Seq<char>, String> {
        self.config@
    }
}

impl DataProcessor {
    /// Takes ownership of `config`; nothing is validated.
    pub fn new(config: StringHashMap<String>) -> (r: Self)
        ensures
            r@ == config@,
    {
        DataProcessor { config }
    }

    /// The value configured under `"output"`, or `"default"` if there is none.
    pub fn process(&self) -> (r: String)
        ensures
            r@ == resolved_output(self@),
    {
        proof {
            reveal_strlit("output");
            reveal_strlit("default");
            assert("output"@ =~= output_key());
            assert("default"@ =~= default_output());
        }
        match self.config.get("output") {
            Some(v) => v.clone(),
            None => String::from_str("default"),
        }
    }

    /// Read-only access to the whole configuration.
    pub fn get_config(&self) -> (r: &StringHashMap<String>)
        ensures
            r@ == self@,
    {
        &self.config
    }
}

/// A processor built from a configuration that maps `"output"` to `v`
/// processes to `v`.
pub proof fn lemma_process_configured(config: Map<Seq<char>, String>, v: String)
    requires
        config.contains_key(output_key()),
        config[output_key()] == v,
    ensures
        resolved_output(config) == v@,
{
}

/// A processor built from a configuration without `"output"` processes to
/// `"default"`.
pub proof fn lemma_process_default(config: Map<Seq<char>, String>)
    requires
        !config.contains_key(output_key()),
    ensures
        resolved_output(config) == default_output(),
{
}

} // verus!
