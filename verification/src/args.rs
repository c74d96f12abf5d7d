//! The arguments of one comparison, and how a command line spells them.

use vstd::prelude::*;
use crate::text::{lowercase, optional_text, same_text, texts, to_lowercase};

verus! {

/// What one comparison is asked to do.
#[derive(Debug, Clone, PartialEq, Eq)]
pub struct CmdArgs {
    /// Path of the locally built artifact.
    pub local: String,
    /// Address or identifier of the deployed contract.
    pub remote: String,
    /// Name of the network, in lowercase.
    pub network: String,
    /// Endpoint to use in place of the network's own.
    pub rpc_url: Option<String>,
    /// Passphrase to use in place of the network's own.
    pub network_passphrase: Option<String>,
    /// Source unit of the contract inside a structured artifact.
    pub contract_path: Option<String>,
    /// Name of the contract inside its source unit.
    pub contract_name: Option<String>,
}

/// The arguments as plain sequences of characters.
pub struct CmdArgsView {
    pub local: Seq<char>,
    pub remote: Seq<char>,
    pub network: Seq<char>,
    pub rpc_url: Option<Seq<char>>,
    pub network_passphrase: Option<Seq<char>>,
    pub contract_path: Option<Seq<char>>,
    pub contract_name: Option<Seq<char>>,
}

impl View for CmdArgs {
    type V = CmdArgsView;

    open spec fn view(&self) -> CmdArgsView {
        CmdArgsView {
            local: self.local@,
            remote: self.remote@,
            network: self.network@,
            rpc_url: optional_text(self.rpc_url),
            network_passphrase: optional_text(self.network_passphrase),
            contract_path: optional_text(self.contract_path),
            contract_name: optional_text(self.contract_name),
        }
    }
}

/// The options that a command line can set, each followed by its value.
#[derive(Clone, Copy, Debug, PartialEq, Eq, Structural)]
pub enum Flag {
    Local,
    Remote,
    RpcUrl,
    NetworkPassphrase,
    Network,
    ContractPath,
    ContractName,
}

/// The option that a word of the command line names, if it names one.
pub open spec fn flag_named(word: Seq<char>) -> Option<Flag> {
    if word == "--local"@ {
        Some(Flag::Local)
    } else if word == "--remote"@ {
        Some(Flag::Remote)
    } else if word == "--rpc-url"@ {
        Some(Flag::RpcUrl)
    } else if word == "--network-passphrase"@ {
        Some(Flag::NetworkPassphrase)
    } else if word == "--network"@ {
        Some(Flag::Network)
    } else if word == "--contract-path"@ {
        Some(Flag::ContractPath)
    } else if word == "--contract-name"@ {
        Some(Flag::ContractName)
    } else {
        None
    }
}

/// The arguments when nothing has been set.
pub open spec fn no_args() -> CmdArgsView {
    CmdArgsView {
        local: Seq::empty(),
        remote: Seq::empty(),
        network: Seq::empty(),
        rpc_url: None,
        network_passphrase: None,
        contract_path: None,
        contract_name: None,
    }
}

/// The arguments after one option has been given a value. The name of the
/// network is kept in lowercase; every other value is kept as written.
pub open spec fn with_value(parsed: CmdArgsView, flag: Flag, value: Seq<char>) -> CmdArgsView {
    match flag {
        Flag::Local => CmdArgsView { local: value, ..parsed },
        Flag::Remote => CmdArgsView { remote: value, ..parsed },
        Flag::RpcUrl => CmdArgsView { rpc_url: Some(value), ..parsed },
        Flag::NetworkPassphrase => CmdArgsView { network_passphrase: Some(value), ..parsed },
        Flag::Network => CmdArgsView { network: lowercase(value), ..parsed },
        Flag::ContractPath => CmdArgsView { contract_path: Some(value), ..parsed },
        Flag::ContractName => CmdArgsView { contract_name: Some(value), ..parsed },
    }
}

/// The arguments that the words from position `at` on add to `parsed`. A word
/// that names an option takes the next word as its value, whatever that word
/// is, and both are consumed. Any other word is passed over, and so is an
/// option in last position, which has no value.
pub open spec fn parsed_from(words: Seq<Seq<char>>, at: int, parsed: CmdArgsView) -> CmdArgsView
    decreases words.len() - at,
{
    if at < 0 || at >= words.len() {
        parsed
    } else if flag_named(words[at]) is Some && at + 1 < words.len() {
        parsed_from(words, at + 2, with_value(parsed, flag_named(words[at])->0, words[at + 1]))
    } else {
        parsed_from(words, at + 1, parsed)
    }
}

/// The arguments that a command line spells. The first word is the name of
/// the program and is not read.
pub open spec fn parsed_args(words: Seq<Seq<char>>) -> CmdArgsView {
    parsed_from(words, 1, no_args())
}

/// Whether no word from position `at` on names an option.
pub open spec fn no_flag_from(words: Seq<Seq<char>>, at: int) -> bool {
    forall|i: int| at <= i < words.len() ==> (#[trigger] flag_named(words[i])) is None
}

/// Words that name no option set nothing.
pub proof fn lemma_words_without_flags_set_nothing(
    words: Seq<Seq<char>>,
    at: int,
    parsed: CmdArgsView,
)
    requires
        0 <= at,
        no_flag_from(words, at),
    ensures
        parsed_from(words, at, parsed) == parsed,
    decreases words.len() - at,
{
    if at < words.len() {
        assert(flag_named(words[at]) is None);
        lemma_words_without_flags_set_nothing(words, at + 1, parsed);
    }
}

/// An option and its value, with no option after them, set one field and
/// leave the others as they were.
pub proof fn lemma_flag_sets_its_value(words: Seq<Seq<char>>, at: int, parsed: CmdArgsView)
    requires
        0 <= at,
        at + 1 < words.len(),
        flag_named(words[at]) is Some,
        no_flag_from(words, at + 2),
    ensures
        parsed_from(words, at, parsed) == with_value(
            parsed,
            flag_named(words[at])->0,
            words[at + 1],
        ),
{
    lemma_words_without_flags_set_nothing(
        words,
        at + 2,
        with_value(parsed, flag_named(words[at])->0, words[at + 1]),
    );
}

/// Recognises a word of the command line as an option.
pub fn flag_of(word: &str) -> (flag: Option<Flag>)
    ensures
        flag == flag_named(word@),
{
    if same_text(word, "--local") {
        Some(Flag::Local)
    } else if same_text(word, "--remote") {
        Some(Flag::Remote)
    } else if same_text(word, "--rpc-url") {
        Some(Flag::RpcUrl)
    } else if same_text(word, "--network-passphrase") {
        Some(Flag::NetworkPassphrase)
    } else if same_text(word, "--network") {
        Some(Flag::Network)
    } else if same_text(word, "--contract-path") {
        Some(Flag::ContractPath)
    } else if same_text(word, "--contract-name") {
        Some(Flag::ContractName)
    } else {
        None
    }
}

/// Reads the arguments of a comparison from the words of a command line.
pub fn process_args(args: &Vec<String>) -> (parsed: CmdArgs)
    ensures
        parsed@ == parsed_args(texts(args@)),
{
    let mut parsed = CmdArgs {
        local: String::new(),
        remote: String::new(),
        network: String::new(),
        rpc_url: None,
        network_passphrase: None,
        contract_path: None,
        contract_name: None,
    };
    let ghost words = texts(args@);
    let mut i: usize = 1;
    while i < args.len()
        invariant
            1 <= i,
            words == texts(args@),
            parsed_from(words, i as int, parsed@) == parsed_args(words),
        decreases args.len() - i,
    {
        let flag = flag_of(args[i].as_str());
        assert(words[i as int] == args@[i as int]@);
        if flag.is_some() && i < args.len() - 1 {
            assert(words[i + 1] == args@[i + 1]@);
            let value = args[i + 1].clone();
            match flag.unwrap() {
                Flag::Local => parsed.local = value,
                Flag::Remote => parsed.remote = value,
                Flag::RpcUrl => parsed.rpc_url = Some(value),
                Flag::NetworkPassphrase => parsed.network_passphrase = Some(value),
                Flag::Network => parsed.network = to_lowercase(value.as_str()),
                Flag::ContractPath => parsed.contract_path = Some(value),
                Flag::ContractName => parsed.contract_name = Some(value),
            }
            i += 2;
        } else {
            i += 1;
        }
    }
    parsed
}

} // verus!
