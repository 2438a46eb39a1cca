//! The settings of a session and its variables, and what a query of the
//! variables gives.

use vstd::prelude::*;
use crate::path::resolve;
use crate::store::{lists, merged, Mapping};
use crate::table::{pairs, table, table_text};
use crate::template::{captured, substitute, substituted};
use crate::value::{decimal, decimal_text, owned, Value};

verus! {

/// The answer to a query: what a path refers to, if anything, or the names
/// that are set.
#[derive(Clone)]
pub enum KV<'a> {
    Value(Option<&'a Value>),
    Keys(Vec<&'a str>),
}

/// One line of a list of names: the position, a bracket, a blank, the name.
pub open spec fn numbered(index: nat, name: Seq<char>) -> Seq<char> {
    decimal(index) + ") "@ + name
}

/// The names as numbered lines, from zero on, with a line feed between
/// each two.
pub open spec fn listing(names: Seq<&str>) -> Seq<char>
    decreases names.len(),
{
    if names.len() == 0 {
        Seq::empty()
    } else if names.len() == 1 {
        numbered(0, names[0]@)
    } else {
        listing(names.drop_last()) + seq!['\n'] + numbered(
            (names.len() - 1) as nat,
            names.last()@,
        )
    }
}

impl<'a> KV<'a> {
    /// What `render` writes, where `value_text` stands for the value.
    pub open spec fn rendered(self, value_text: Seq<char>) -> Seq<char> {
        match self {
            KV::Value(Some(_)) => value_text,
            KV::Value(None) => "None"@,
            KV::Keys(names) => listing(names@),
        }
    }

    /// Takes the value out: the value that a path referred to comes once,
    /// and nothing after that; names give nothing.
    pub fn next(&mut self) -> (found: Option<&'a Value>)
        ensures
            match *old(self) {
                KV::Value(value) => found == value && *final(self) == KV::Value(None),
                KV::Keys(_) => found.is_none() && *final(self) == *old(self),
            },
    {
        match self {
            KV::Value(value) => {
                let found = *value;
                *self = KV::Value(None);
                found
            },
            KV::Keys(_) => None,
        }
    }

    /// Writes the answer as text. A value is written as `value_text`, the
    /// text that the caller renders for it; a path that referred to nothing
    /// as the word None; names as numbered lines.
    pub fn render(&self, value_text: &str) -> (text: String)
        ensures
            text@ == self.rendered(value_text@),
    {
        match self {
            KV::Value(Some(_)) => String::from_str(value_text),
            KV::Value(None) => String::from_str("None"),
            KV::Keys(names) => {
                let mut text = String::new();
                let mut i: usize = 0;
                while i < names.len()
                    invariant
                        i <= names.len(),
                        text@ == listing(names@.take(i as int)),
                    decreases names.len() - i,
                {
                    proof {
                        reveal_strlit("\n");
                        assert(names@.take(i + 1).drop_last() == names@.take(i as int));
                    }
                    if i > 0 {
                        text.append("\n");
                    }
                    let ghost start = text@;
                    let position = decimal_text(i as u64);
                    text.append(position.as_str());
                    text.append(") ");
                    text.append(names[i]);
                    proof {
                        assert("\n"@ == seq!['\n']);
                        assert(text@ =~= start + numbered(i as nat, names[i as int]@));
                    }
                    i += 1;
                }
                assert(names@.take(i as int) == names@);
                text
            },
        }
    }
}

/// Whether `text` begins with `prefix`.
pub fn has_prefix(text: &str, prefix: &str) -> (yes: bool)
    ensures
        yes == prefix@.is_prefix_of(text@),
{
    let n = prefix.unicode_len();
    if text.unicode_len() < n {
        return false;
    }
    let mut i: usize = 0;
    while i < n
        invariant
            i <= n,
            n == prefix@.len(),
            n <= text@.len(),
            forall|j: int| 0 <= j < i ==> text@[j] == prefix@[j],
        decreases n - i,
    {
        if text.get_char(i) != prefix.get_char(i) {
            assert(text@.subrange(0, n as int)[i as int] != prefix@[i as int]);
            return false;
        }
        i += 1;
    }
    assert(prefix@ =~= text@.subrange(0, n as int));
    true
}

/// An address with its scheme: the address itself where it names HTTP or
/// HTTPS, else the address behind the scheme of HTTP.
pub open spec fn with_scheme(address: Seq<char>) -> Seq<char> {
    if "http://"@.is_prefix_of(address) || "https://"@.is_prefix_of(address) {
        address
    } else {
        "http://"@ + address
    }
}

/// Puts the scheme of HTTP before an address that names none.
pub fn add_scheme(address: String) -> (full: String)
    ensures
        full@ == with_scheme(address@),
{
    if has_prefix(address.as_str(), "http://") || has_prefix(address.as_str(), "https://") {
        address
    } else {
        String::from_str("http://").concat(address.as_str())
    }
}

/// The kind of chain that a node serves. Nothing of it is visible here but
/// its name.
#[verifier::external_type_specification]
#[verifier::external_body]
pub struct ExNetworkType(ckb_sdk::NetworkType);

/// The name of a network, as its `Debug` writes it.
pub uninterp spec fn network_name(network: ckb_sdk::NetworkType) -> Seq<char>;

/// Formats a network with the `Debug` that `ckb_sdk` derives for
/// `NetworkType`, which writes the name of the variant.
#[verifier::external_body]
fn network_text(network: ckb_sdk::NetworkType) -> (text: String)
    ensures
        text@ == network_name(network),
{
    format!("{:?}", network)
}

/// The settings of a session, and its variables.
pub struct GlobalConfig {
    pub url: Option<String>,
    pub ckb_indexer_url: Option<String>,
    pub network: Option<ckb_sdk::NetworkType>,
    pub color: bool,
    pub debug: bool,
    pub no_sync: bool,
    pub completion_style: bool,
    pub edit_style: bool,
    pub env_variable: Mapping,
}

impl GlobalConfig {
    /// The settings of a new session: colour, list completion and Emacs
    /// editing on, the rest off, no network known and no variable.
    pub fn new(url: Option<String>, ckb_indexer_url: Option<String>) -> (config: Self)
        ensures
            config.url == url,
            config.ckb_indexer_url == ckb_indexer_url,
            config.network.is_none(),
            config.color,
            !config.debug,
            !config.no_sync,
            config.completion_style,
            config.edit_style,
            config.env_variable@ == Map::<Seq<char>, Value>::empty(),
    {
        GlobalConfig {
            url,
            ckb_indexer_url,
            network: None,
            color: true,
            debug: false,
            no_sync: false,
            completion_style: true,
            edit_style: true,
            env_variable: Mapping::new(),
        }
    }

    /// Whether two configurations have the same settings, whatever their
    /// variables.
    pub open spec fn same_settings(self, other: Self) -> bool {
        &&& self.url == other.url
        &&& self.ckb_indexer_url == other.ckb_indexer_url
        &&& self.network == other.network
        &&& self.color == other.color
        &&& self.debug == other.debug
        &&& self.no_sync == other.no_sync
        &&& self.completion_style == other.completion_style
        &&& self.edit_style == other.edit_style
    }

    /// Whether two configurations differ in nothing but, possibly, the
    /// two addresses.
    pub open spec fn same_but_urls(self, other: Self) -> bool {
        &&& self.network == other.network
        &&& self.color == other.color
        &&& self.debug == other.debug
        &&& self.no_sync == other.no_sync
        &&& self.completion_style == other.completion_style
        &&& self.edit_style == other.edit_style
        &&& self.env_variable == other.env_variable
    }

    /// Sets the node's address, with the scheme of HTTP where it names none.
    pub fn set_url(&mut self, value: String)
        ensures
            final(self).url matches Some(url) && url@ == with_scheme(value@),
            final(self).ckb_indexer_url == old(self).ckb_indexer_url,
            final(self).same_but_urls(*old(self)),
    {
        self.url = Some(add_scheme(value));
    }

    /// The node's address: the one that was set, else that of a node on
    /// this machine.
    pub fn get_url(&self) -> (url: &str)
        ensures
            url@ == self.url_text(),
    {
        match &self.url {
            Some(set) => set.as_str(),
            None => "http://127.0.0.1:8114",
        }
    }

    /// Sets the indexer's address, with the scheme of HTTP where it names
    /// none.
    pub fn set_ckb_indexer_url(&mut self, value: String)
        ensures
            final(self).ckb_indexer_url matches Some(url) && url@ == with_scheme(value@),
            final(self).url == old(self).url,
            final(self).same_but_urls(*old(self)),
    {
        self.ckb_indexer_url = Some(add_scheme(value));
    }

    /// The indexer's address: the one that was set, else that of an
    /// indexer on this machine.
    pub fn get_ckb_indexer_url(&self) -> (url: &str)
        ensures
            url@ == self.ckb_indexer_url_text(),
    {
        match &self.ckb_indexer_url {
            Some(set) => set.as_str(),
            None => "http://127.0.0.1:8116",
        }
    }

    /// Sets the network, or that none is known.
    pub fn set_network(&mut self, network: Option<ckb_sdk::NetworkType>)
        ensures
            *final(self) == (GlobalConfig { network: network, ..*old(self) }),
    {
        self.network = network;
    }

    /// The network, where one is known.
    pub fn network(&self) -> (network: Option<ckb_sdk::NetworkType>)
        ensures
            network == self.network,
    {
        self.network
    }

    /// Turns colour on if it is off, and off if it is on.
    pub fn switch_color(&mut self)
        ensures
            *final(self) == (GlobalConfig { color: !old(self).color, ..*old(self) }),
    {
        self.color = !self.color;
    }

    /// Turns debugging on if it is off, and off if it is on.
    pub fn switch_debug(&mut self)
        ensures
            *final(self) == (GlobalConfig { debug: !old(self).debug, ..*old(self) }),
    {
        self.debug = !self.debug;
    }

    /// Changes between list completion and circular completion.
    pub fn switch_completion_style(&mut self)
        ensures
            *final(self) == (GlobalConfig {
                completion_style: !old(self).completion_style,
                ..*old(self)
            }),
    {
        self.completion_style = !self.completion_style;
    }

    /// Changes between Emacs editing and Vi editing.
    pub fn switch_edit_style(&mut self)
        ensures
            *final(self) == (GlobalConfig { edit_style: !old(self).edit_style, ..*old(self) }),
    {
        self.edit_style = !self.edit_style;
    }

    /// Turns colour on or off.
    pub fn set_color(&mut self, value: bool)
        ensures
            *final(self) == (GlobalConfig { color: value, ..*old(self) }),
    {
        self.color = value;
    }

    /// Turns debugging on or off.
    pub fn set_debug(&mut self, value: bool)
        ensures
            *final(self) == (GlobalConfig { debug: value, ..*old(self) }),
    {
        self.debug = value;
    }

    /// Turns synchronising off or on.
    pub fn set_no_sync(&mut self, value: bool)
        ensures
            *final(self) == (GlobalConfig { no_sync: value, ..*old(self) }),
    {
        self.no_sync = value;
    }

    /// Chooses list completion, or circular completion.
    pub fn set_completion_style(&mut self, value: bool)
        ensures
            *final(self) == (GlobalConfig { completion_style: value, ..*old(self) }),
    {
        self.completion_style = value;
    }

    /// Chooses Emacs editing, or Vi editing.
    pub fn set_edit_style(&mut self, value: bool)
        ensures
            *final(self) == (GlobalConfig { edit_style: value, ..*old(self) }),
    {
        self.edit_style = value;
    }

    /// Whether colour is on.
    pub fn color(&self) -> (on: bool)
        ensures
            on == self.color,
    {
        self.color
    }

    /// Whether debugging is on.
    pub fn debug(&self) -> (on: bool)
        ensures
            on == self.debug,
    {
        self.debug
    }

    /// Whether synchronising is off.
    pub fn no_sync(&self) -> (on: bool)
        ensures
            on == self.no_sync,
    {
        self.no_sync
    }

    /// Whether completion is by list.
    pub fn completion_style(&self) -> (list: bool)
        ensures
            list == self.completion_style,
    {
        self.completion_style
    }

    /// Whether editing is as in Emacs.
    pub fn edit_style(&self) -> (emacs: bool)
        ensures
            emacs == self.edit_style,
    {
        self.edit_style
    }

    /// The word for a switch.
    pub open spec fn switch_text(on: bool) -> Seq<char> {
        if on {
            "true"@
        } else {
            "false"@
        }
    }

    /// The node's address, as `get_url` gives it.
    pub open spec fn url_text(self) -> Seq<char> {
        match self.url {
            Some(set) => set@,
            None => "http://127.0.0.1:8114"@,
        }
    }

    /// The indexer's address, as `get_ckb_indexer_url` gives it.
    pub open spec fn ckb_indexer_url_text(self) -> Seq<char> {
        match self.ckb_indexer_url {
            Some(set) => set@,
            None => "http://127.0.0.1:8116"@,
        }
    }

    /// The name of the network, or a word that says that none is known.
    pub open spec fn network_label(self) -> Seq<char> {
        match self.network {
            Some(network) => network_name(network),
            None => "unknown"@,
        }
    }

    /// The names and values that `summary` shows, in their order. The
    /// version, the output format and the working directory are the
    /// caller's.
    pub open spec fn entries(
        self,
        version: Seq<char>,
        output_format: Seq<char>,
        pwd: Seq<char>,
    ) -> Seq<(Seq<char>, Seq<char>)> {
        seq![
            ("ckb-cli version"@, version),
            ("url"@, self.url_text() + " (network: "@ + self.network_label() + ")"@),
            ("ckb-indexer"@, self.ckb_indexer_url_text()),
            ("pwd"@, pwd),
            ("color"@, Self::switch_text(self.color)),
            ("debug"@, Self::switch_text(self.debug)),
            ("no-sync"@, Self::switch_text(self.no_sync)),
            ("output format"@, output_format),
            ("completion style"@, if self.completion_style {
                "List"@
            } else {
                "Circular"@
            }),
            ("edit style"@, if self.edit_style {
                "Emacs"@
            } else {
                "Vi"@
            }),
        ]
    }

    /// Writes the settings as a table, the values in yellow where colour
    /// is on.
    pub fn summary(&self, version: &str, output_format: &str, pwd: &str) -> (text: String)
        ensures
            text@ == table_text(self.entries(version@, output_format@, pwd@), self.color),
    {
        let network = match self.network {
            Some(network) => network_text(network),
            None => String::from_str("unknown"),
        };
        let mut url = String::from_str(self.get_url());
        url.append(" (network: ");
        url.append(network.as_str());
        url.append(")");
        let color = if self.color {
            "true"
        } else {
            "false"
        };
        let debug = if self.debug {
            "true"
        } else {
            "false"
        };
        let no_sync = if self.no_sync {
            "true"
        } else {
            "false"
        };
        let completion_style = if self.completion_style {
            "List"
        } else {
            "Circular"
        };
        let edit_style = if self.edit_style {
            "Emacs"
        } else {
            "Vi"
        };
        let values: Vec<(&str, &str)> = vec![
            ("ckb-cli version", version),
            ("url", url.as_str()),
            ("ckb-indexer", self.get_ckb_indexer_url()),
            ("pwd", pwd),
            ("color", color),
            ("debug", debug),
            ("no-sync", no_sync),
            ("output format", output_format),
            ("completion style", completion_style),
            ("edit style", edit_style),
        ];
        assert(pairs(values@) =~= self.entries(version@, output_format@, pwd@));
        table(&values, self.color)
    }

    /// Sets the variable `key` to `value`, whether or not it had one.
    pub fn set(&mut self, key: String, value: Value) -> (this: &mut Self)
        ensures
            this.env_variable@ == old(self).env_variable@.insert(key@, value),
            this.same_settings(*old(self)),
            *final(self) == *final(this),
    {
        self.env_variable.set(key, value);
        self
    }

    /// Answers a query: with a path, what the path refers to; without one,
    /// the names that are set.
    pub fn get<'a>(&'a self, key: Option<&str>) -> (answer: KV<'a>)
        ensures
            match key {
                Some(path) => answer matches KV::Value(found) && owned(found) == resolve(
                    self.env_variable@,
                    path@,
                ),
                None => answer matches KV::Keys(names) && lists(names@, self.env_variable@),
            },
    {
        match key {
            Some(path) => KV::Value(self.env_variable.resolve(path)),
            None => KV::Keys(self.env_variable.names()),
        }
    }

    /// Sets each pair of `vars`, from the first to the last.
    pub fn add_env_vars(&mut self, vars: Vec<(String, Value)>)
        ensures
            final(self).env_variable@ == merged(old(self).env_variable@, vars@),
            final(self).same_settings(*old(self)),
    {
        self.env_variable.merge(vars);
    }

    /// Replaces every match of `regex` in `line` by the text of what the
    /// match's group `key` names among the variables.
    pub fn replace_cmd(&self, regex: &regex::Regex, line: &str) -> (out: String)
        ensures
            out@ == substituted(self.env_variable@, line@, captured(*regex, line@), 0),
    {
        substitute(&self.env_variable, regex, line)
    }
}

} // verus!
