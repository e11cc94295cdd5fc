//! Printer discovery: which command lists the installed printers, and how
//! its output is read.
//!
//! The spooler's listing holds one printer name per line.  The shell
//! utility's listing holds lines of the form `printer <name> ...`.  A listing
//! without a printer can be replaced by a fixed list of synthetic names, so
//! that work on the user interface can go on without hardware; the caller
//! says whether that is wanted.

use crate::system::{Backend, CallModel, OsCall, OsReply};
use crate::text::{
    begins_with, chars_of, content_end, find_content, find_content_end, find_line_end,
    find_word_end, first_word, is_whitespace, lemma_content_end, lemma_line_end,
    lemma_skip_whitespace, lemma_word_end, line_end, prefixed, skip_whitespace, trimmed,
    word_end,
};
use vstd::prelude::*;

verus! {

/// The program that lists the spooler's printers.
pub const SPOOLER_LISTER: &'static str = "powershell";

/// The script that the spooler's lister is given.
pub const SPOOLER_SCRIPT: &'static str = "Get-Printer | Select-Object -ExpandProperty Name";

/// The program that lists the shell utility's printers.
pub const SHELL_LISTER: &'static str = "lpstat";

/// The word that begins the line of a printer in the shell utility's
/// listing, with the blank that follows it.
pub const PRINTER_KEYWORD: &'static str = "printer ";

/// The arguments of the spooler's lister.
pub open spec fn spooler_lister_args() -> Seq<Seq<char>> {
    seq![
        "-NoProfile"@,
        "-NonInteractive"@,
        "-WindowStyle"@,
        "Hidden"@,
        "-Command"@,
        SPOOLER_SCRIPT@,
    ]
}

/// The call that lists the printers of a backend, if it has one.
pub open spec fn listing_call(backend: Backend) -> Option<CallModel> {
    match backend {
        Backend::Spooler => Some(
            CallModel::RunCommand { program: SPOOLER_LISTER@, args: spooler_lister_args() },
        ),
        Backend::ShellUtility => Some(
            CallModel::RunCommand { program: SHELL_LISTER@, args: seq!["-p"@] },
        ),
        Backend::Unsupported => None,
    }
}

/// The names in a spooler listing from position `from` on: of each line
/// what is left when the white space at its ends is taken away, unless
/// nothing is left.
pub open spec fn spooler_names_from(text: Seq<char>, from: int) -> Seq<Seq<char>>
    decreases text.len() - from,
{
    if from < 0 || from >= text.len() {
        Seq::empty()
    } else {
        let end = line_end(text, from);
        let name = trimmed(text, from, end);
        let rest = if from <= end < text.len() {
            spooler_names_from(text, end + 1)
        } else {
            Seq::empty()
        };
        if name.len() == 0 {
            rest
        } else {
            seq![name] + rest
        }
    }
}

/// The names in a spooler listing.
pub open spec fn spooler_names(text: Seq<char>) -> Seq<Seq<char>> {
    spooler_names_from(text, 0)
}

/// The name in the part `from..to` of a shell-utility listing, which is one
/// line: the word that follows the keyword, if the line begins with the
/// keyword and a word follows.
pub open spec fn shell_name(text: Seq<char>, from: int, to: int) -> Option<Seq<char>> {
    if PRINTER_KEYWORD@.is_prefix_of(text.subrange(from, to)) {
        first_word(text, from + PRINTER_KEYWORD@.len(), to)
    } else {
        None
    }
}

/// The names in a shell-utility listing from position `from` on.
pub open spec fn shell_names_from(text: Seq<char>, from: int) -> Seq<Seq<char>>
    decreases text.len() - from,
{
    if from < 0 || from >= text.len() {
        Seq::empty()
    } else {
        let end = line_end(text, from);
        let rest = if from <= end < text.len() {
            shell_names_from(text, end + 1)
        } else {
            Seq::empty()
        };
        match shell_name(text, from, end) {
            Some(name) => seq![name] + rest,
            None => rest,
        }
    }
}

/// The names in a shell-utility listing.
pub open spec fn shell_names(text: Seq<char>) -> Seq<Seq<char>> {
    shell_names_from(text, 0)
}

/// The names in the listing of a backend.
pub open spec fn listed_names(backend: Backend, text: Seq<char>) -> Seq<Seq<char>> {
    match backend {
        Backend::Spooler => spooler_names(text),
        Backend::ShellUtility => shell_names(text),
        Backend::Unsupported => Seq::empty(),
    }
}

/// The mark at the end of every synthetic name.  It tells whoever reads
/// the name that no such printer is installed.
pub const MOCK_MARK: &'static str = " (Mock)";

/// The synthetic name after a model of printer: the model, marked.
pub open spec fn mock_of(model: Seq<char>) -> Seq<char> {
    model + MOCK_MARK@
}

/// Whether a name carries the mark of a synthetic name.
pub open spec fn marked_as_mock(name: Seq<char>) -> bool {
    MOCK_MARK@.is_suffix_of(name)
}

/// The synthetic names that stand in for an empty listing.
pub open spec fn synthetic_names(backend: Backend) -> Seq<Seq<char>> {
    match backend {
        Backend::Spooler => seq![
            mock_of("EPSON TM-T88V"@),
            mock_of("Star TSP143"@),
            mock_of("Brother QL-820NWB"@),
            mock_of("Microsoft Print to PDF"@),
        ],
        Backend::ShellUtility => seq![
            mock_of("EPSON TM-T88V"@),
            mock_of("Star TSP143"@),
            mock_of("Brother QL-820NWB"@),
        ],
        Backend::Unsupported => Seq::empty(),
    }
}

/// The names that discovery reports for a listing: the names in it, or the
/// synthetic names if there are none in it and the caller allows them.
pub open spec fn reported_names(
    backend: Backend,
    text: Seq<char>,
    allow_synthetic: bool,
) -> Seq<Seq<char>> {
    if listed_names(backend, text).len() == 0 && allow_synthetic {
        synthetic_names(backend)
    } else {
        listed_names(backend, text)
    }
}

/// What is said where there is no way to list printers.
pub const NO_DISCOVERY: &'static str = "Printer detection not supported on this platform";

/// What is said of a lister that could not be run.
pub open spec fn not_run_message(backend: Backend, detail: Seq<char>) -> Seq<char> {
    match backend {
        Backend::Spooler => "Failed to execute PowerShell command: "@ + detail,
        _ => "Failed to execute lpstat command: "@ + detail,
    }
}

/// What is said of a lister that ended in failure.
pub open spec fn lister_failed_message(backend: Backend, stderr: Seq<char>) -> Seq<char> {
    match backend {
        Backend::Spooler => "PowerShell error: "@ + stderr,
        _ => "lpstat error: "@ + stderr,
    }
}

/// What the printers of a backend are, given the answer to its listing
/// call: the reported names if the lister ran and ended with success,
/// otherwise what went wrong.  A backend without a lister has no printers
/// to report, whatever the answer.
pub open spec fn listing_outcome(
    backend: Backend,
    reply: OsReply,
    allow_synthetic: bool,
) -> Result<Seq<Seq<char>>, Seq<char>> {
    if backend is Unsupported {
        Err(NO_DISCOVERY@)
    } else {
        match reply {
            OsReply::Exited { success, stdout, stderr } => if success {
                Ok(reported_names(backend, stdout@, allow_synthetic))
            } else {
                Err(lister_failed_message(backend, stderr@))
            },
            OsReply::Failed { detail } => Err(not_run_message(backend, detail@)),
            _ => Err(not_run_message(backend, Seq::empty())),
        }
    }
}

/// What discovery tells the caller: the outcome of the listing, the
/// failure of a lister being marked as one of discovery.
pub open spec fn discovery_outcome(
    backend: Backend,
    listing: Result<Seq<Seq<char>>, Seq<char>>,
) -> Result<Seq<Seq<char>>, Seq<char>> {
    match listing {
        Ok(names) => Ok(names),
        Err(message) => if backend is Unsupported {
            Err(message)
        } else {
            Err("Failed to get printers: "@ + message)
        },
    }
}

/// `listing` is what the printers of `backend` are according to `os`: the
/// outcome of the one answer that `os` gave to the listing call.  For a
/// backend without a lister nothing is asked.
pub open spec fn listed_by<F: Fn(OsCall) -> OsReply>(
    os: F,
    backend: Backend,
    allow_synthetic: bool,
    listing: Result<Seq<Seq<char>>, Seq<char>>,
) -> bool {
    match listing_call(backend) {
        Some(asked) => exists|call: OsCall, reply: OsReply|
            #![trigger os.ensures((call,), reply)]
            {
                &&& call@ == asked
                &&& os.ensures((call,), reply)
                &&& listing == listing_outcome(backend, reply, allow_synthetic)
            },
        None => listing == Err::<Seq<Seq<char>>, Seq<char>>(NO_DISCOVERY@),
    }
}

/// A discovery result as views.
pub open spec fn names_view(
    result: Result<Vec<String>, String>,
) -> Result<Seq<Seq<char>>, Seq<char>> {
    match result {
        Ok(names) => Ok(names.deep_view()),
        Err(message) => Err(message@),
    }
}

/// The lister of a backend ran, ended with success and listed no printer.
pub open spec fn listed_nothing(backend: Backend, reply: OsReply) -> bool {
    match reply {
        OsReply::Exited { success, stdout, .. } => !(backend is Unsupported) && success
            && listed_names(backend, stdout@).len() == 0,
        _ => false,
    }
}

/// Discovery reports no printer and no error only if the lister ran, ended
/// with success and listed no printer, and synthetic names are not allowed.
/// With synthetic names allowed, a listing without a printer gives the
/// fixed synthetic names: four for the spooler, three for the shell utility.
pub proof fn lemma_empty_discovery(backend: Backend, reply: OsReply, allow_synthetic: bool)
    ensures
        discovery_outcome(backend, listing_outcome(backend, reply, allow_synthetic)) == Ok::<
            Seq<Seq<char>>,
            Seq<char>,
        >(Seq::empty()) <==> listed_nothing(backend, reply) && !allow_synthetic,
        listed_nothing(backend, reply) && allow_synthetic ==> discovery_outcome(
            backend,
            listing_outcome(backend, reply, allow_synthetic),
        ) == Ok::<Seq<Seq<char>>, Seq<char>>(synthetic_names(backend)),
        synthetic_names(Backend::Spooler).len() == 4,
        synthetic_names(Backend::ShellUtility).len() == 3,
{
    if backend != Backend::Unsupported {
        match reply {
            OsReply::Exited { success, stdout, stderr } => {
                if success {
                    let names = reported_names(backend, stdout@, allow_synthetic);
                    if listed_names(backend, stdout@).len() == 0 && !allow_synthetic {
                        assert(names =~= Seq::empty());
                    }
                    if names == Seq::<Seq<char>>::empty() {
                        assert(names.len() == 0);
                    }
                }
            },
            _ => {},
        }
    }
}

/// What a printer name is: text that is not empty and has no white space
/// at either end.
pub open spec fn is_printer_name(name: Seq<char>) -> bool {
    name.len() > 0 && !is_whitespace(name.first()) && !is_whitespace(name.last())
}

/// Every name read from a spooler listing is a printer name.
pub proof fn lemma_spooler_names_are_names(text: Seq<char>, from: int)
    requires
        0 <= from,
    ensures
        forall|i: int|
            0 <= i < spooler_names_from(text, from).len() ==> is_printer_name(
                #[trigger] spooler_names_from(text, from)[i],
            ),
    decreases text.len() - from,
{
    if from < text.len() {
        let end = line_end(text, from);
        lemma_line_end(text, from);
        let first = skip_whitespace(text, from, end);
        lemma_skip_whitespace(text, from, end);
        let last = content_end(text, first, end);
        lemma_content_end(text, first, end);
        let name = trimmed(text, from, end);
        let rest = if end < text.len() {
            spooler_names_from(text, end + 1)
        } else {
            Seq::empty()
        };
        if end < text.len() {
            lemma_spooler_names_are_names(text, end + 1);
        }
        if name.len() > 0 {
            assert(name.first() == text[first]);
            assert(name.last() == text[last - 1]);
            assert forall|i: int| 0 <= i < (seq![name] + rest).len() implies is_printer_name(
                #[trigger] (seq![name] + rest)[i],
            ) by {
                if i > 0 {
                    assert((seq![name] + rest)[i] == rest[i - 1]);
                }
            }
        }
    }
}

/// What a word is: a printer name without white space in it.
pub open spec fn is_word(name: Seq<char>) -> bool {
    is_printer_name(name) && forall|k: int| 0 <= k < name.len() ==> !is_whitespace(name[k])
}

/// Every name read from a shell-utility listing is a single word.
pub proof fn lemma_shell_names_are_words(text: Seq<char>, from: int)
    requires
        0 <= from,
    ensures
        forall|i: int|
            0 <= i < shell_names_from(text, from).len() ==> is_word(
                #[trigger] shell_names_from(text, from)[i],
            ),
    decreases text.len() - from,
{
    if from < text.len() {
        let end = line_end(text, from);
        lemma_line_end(text, from);
        let rest = if end < text.len() {
            shell_names_from(text, end + 1)
        } else {
            Seq::empty()
        };
        if end < text.len() {
            lemma_shell_names_are_words(text, end + 1);
        }
        match shell_name(text, from, end) {
            Some(name) => {
                let after = from + PRINTER_KEYWORD@.len();
                let first = skip_whitespace(text, after, end);
                lemma_skip_whitespace(text, after, end);
                lemma_word_end(text, first, end);
                let last = word_end(text, first, end);
                assert(last > first);
                assert(name == text.subrange(first, last));
                assert(is_word(name)) by {
                    assert(name.first() == text[first]);
                    assert(name.last() == text[last - 1]);
                    assert forall|k: int| 0 <= k < name.len() implies !is_whitespace(
                        name[k],
                    ) by {
                        assert(name[k] == text[first + k]);
                    }
                }
                assert forall|i: int| 0 <= i < (seq![name] + rest).len() implies is_word(
                    #[trigger] (seq![name] + rest)[i],
                ) by {
                    if i > 0 {
                        assert((seq![name] + rest)[i] == rest[i - 1]);
                    }
                }
            },
            None => {},
        }
    }
}

/// Every synthetic name carries the mark of one, so that none can be
/// taken for an installed printer.
pub proof fn lemma_synthetic_names_are_marked(backend: Backend)
    ensures
        forall|i: int|
            0 <= i < synthetic_names(backend).len() ==> marked_as_mock(
                #[trigger] synthetic_names(backend)[i],
            ),
{
    assert forall|model: Seq<char>| marked_as_mock(#[trigger] mock_of(model)) by {
        let name = mock_of(model);
        assert(name.subrange(name.len() - MOCK_MARK@.len(), name.len() as int) =~= MOCK_MARK@);
    }
}

/// Every name that discovery reports is a printer name, the synthetic
/// names too.
pub proof fn lemma_reported_names_are_names(
    backend: Backend,
    text: Seq<char>,
    allow_synthetic: bool,
)
    ensures
        forall|i: int|
            0 <= i < reported_names(backend, text, allow_synthetic).len() ==> is_printer_name(
                #[trigger] reported_names(backend, text, allow_synthetic)[i],
            ),
{
    lemma_spooler_names_are_names(text, 0);
    lemma_shell_names_are_words(text, 0);
    reveal_strlit("EPSON TM-T88V");
    reveal_strlit("Star TSP143");
    reveal_strlit("Brother QL-820NWB");
    reveal_strlit("Microsoft Print to PDF");
    reveal_strlit(" (Mock)");
}

/// One more name at the end of a list of names.
proof fn lemma_names_push(names: Vec<String>, before: Seq<Seq<char>>, name: Seq<char>)
    requires
        names@.len() == before.len() + 1,
        forall|i: int| 0 <= i < before.len() ==> names@[i]@ == before[i],
        names@[before.len() as int]@ == name,
    ensures
        names.deep_view() == before.push(name),
{
    assert(names.deep_view() =~= before.push(name));
}

/// Reads the printer names from a spooler listing.
pub fn parse_spooler_listing(stdout: &str) -> (names: Vec<String>)
    ensures
        names.deep_view() == spooler_names(stdout@),
{
    let chars = chars_of(stdout);
    let mut names: Vec<String> = Vec::new();
    let mut from: usize = 0;
    assert(names.deep_view() =~= Seq::<Seq<char>>::empty());
    while from < chars.len()
        invariant
            chars@ == stdout@,
            from <= chars.len(),
            names.deep_view() + spooler_names_from(chars@, from as int) == spooler_names(chars@),
        decreases chars.len() - from,
    {
        let end = find_line_end(&chars, from);
        let first = find_content(&chars, from, end);
        let last = find_content_end(&chars, first, end);
        let ghost before = names.deep_view();
        let ghost rest = spooler_names_from(
            chars@,
            if end < chars.len() {
                end + 1
            } else {
                chars.len() as int
            },
        );
        if first < last {
            let name = String::from_str(stdout.substring_char(first, last));
            names.push(name);
            proof {
                lemma_names_push(names, before, trimmed(chars@, from as int, end as int));
                assert(before.push(name@) + rest =~= before + (seq![name@] + rest));
            }
        }
        from = if end < chars.len() {
            end + 1
        } else {
            end
        };
    }
    assert(names.deep_view() + Seq::<Seq<char>>::empty() =~= names.deep_view());
    names
}

/// Reads the printer names from a shell-utility listing.
pub fn parse_shell_listing(stdout: &str) -> (names: Vec<String>)
    ensures
        names.deep_view() == shell_names(stdout@),
{
    let chars = chars_of(stdout);
    let keyword = chars_of(PRINTER_KEYWORD);
    let mut names: Vec<String> = Vec::new();
    let mut from: usize = 0;
    assert(names.deep_view() =~= Seq::<Seq<char>>::empty());
    while from < chars.len()
        invariant
            chars@ == stdout@,
            keyword@ == PRINTER_KEYWORD@,
            from <= chars.len(),
            names.deep_view() + shell_names_from(chars@, from as int) == shell_names(chars@),
        decreases chars.len() - from,
    {
        let end = find_line_end(&chars, from);
        let ghost before = names.deep_view();
        let ghost rest = shell_names_from(
            chars@,
            if end < chars.len() {
                end + 1
            } else {
                chars.len() as int
            },
        );
        if begins_with(&chars, from, end, &keyword) {
            let after = from + keyword.len();
            let first = find_content(&chars, after, end);
            if first < end {
                let last = find_word_end(&chars, first, end);
                let name = String::from_str(stdout.substring_char(first, last));
                names.push(name);
                proof {
                    lemma_names_push(names, before, chars@.subrange(first as int, last as int));
                    assert(before.push(name@) + rest =~= before + (seq![name@] + rest));
                }
            }
        }
        from = if end < chars.len() {
            end + 1
        } else {
            end
        };
    }
    assert(names.deep_view() + Seq::<Seq<char>>::empty() =~= names.deep_view());
    names
}

/// The synthetic printer names of a backend.
pub fn synthetic_printers(backend: Backend) -> (names: Vec<String>)
    ensures
        names.deep_view() == synthetic_names(backend),
{
    let mut names: Vec<String> = Vec::new();
    match backend {
        Backend::Unsupported => {},
        _ => {
            names.push(prefixed("EPSON TM-T88V", MOCK_MARK));
            names.push(prefixed("Star TSP143", MOCK_MARK));
            names.push(prefixed("Brother QL-820NWB", MOCK_MARK));
        },
    }
    match backend {
        Backend::Spooler => {
            names.push(prefixed("Microsoft Print to PDF", MOCK_MARK));
        },
        _ => {},
    }
    assert(names.deep_view() =~= synthetic_names(backend));
    names
}

/// The call that lists the printers of a backend; none for a backend
/// without a lister.
pub fn listing_command(backend: Backend) -> (call: Option<OsCall>)
    ensures
        match call {
            Some(call) => listing_call(backend) == Some(call@),
            None => listing_call(backend) is None,
        },
{
    match backend {
        Backend::Spooler => {
            let mut args: Vec<String> = Vec::new();
            args.push(String::from_str("-NoProfile"));
            args.push(String::from_str("-NonInteractive"));
            args.push(String::from_str("-WindowStyle"));
            args.push(String::from_str("Hidden"));
            args.push(String::from_str("-Command"));
            args.push(String::from_str(SPOOLER_SCRIPT));
            assert(args.deep_view() =~= spooler_lister_args());
            Some(OsCall::RunCommand { program: String::from_str(SPOOLER_LISTER), args })
        },
        Backend::ShellUtility => {
            let mut args: Vec<String> = Vec::new();
            args.push(String::from_str("-p"));
            assert(args.deep_view() =~= seq!["-p"@]);
            Some(OsCall::RunCommand { program: String::from_str(SHELL_LISTER), args })
        },
        Backend::Unsupported => None,
    }
}

/// Reads the answer to the listing call of a backend.
pub fn read_listing(
    backend: Backend,
    reply: OsReply,
    allow_synthetic: bool,
) -> (listing: Result<Vec<String>, String>)
    ensures
        names_view(listing) == listing_outcome(backend, reply, allow_synthetic),
{
    match backend {
        Backend::Unsupported => {
            return Err(String::from_str(NO_DISCOVERY));
        },
        _ => {},
    }
    match reply {
        OsReply::Exited { success, stdout, stderr } => {
            if success {
                let names = match backend {
                    Backend::Spooler => parse_spooler_listing(stdout.as_str()),
                    _ => parse_shell_listing(stdout.as_str()),
                };
                if names.len() == 0 && allow_synthetic {
                    Ok(synthetic_printers(backend))
                } else {
                    Ok(names)
                }
            } else {
                Err(
                    match backend {
                        Backend::Spooler => prefixed("PowerShell error: ", stderr.as_str()),
                        _ => prefixed("lpstat error: ", stderr.as_str()),
                    },
                )
            }
        },
        OsReply::Failed { detail } => Err(
            match backend {
                Backend::Spooler => prefixed(
                    "Failed to execute PowerShell command: ",
                    detail.as_str(),
                ),
                _ => prefixed("Failed to execute lpstat command: ", detail.as_str()),
            },
        ),
        _ => Err(
            match backend {
                Backend::Spooler => String::from_str("Failed to execute PowerShell command: "),
                _ => String::from_str("Failed to execute lpstat command: "),
            },
        ),
    }
}

/// Lists the printers of a backend: makes the listing call on `os` and
/// reads the answer.
fn list_printers<F: Fn(OsCall) -> OsReply>(
    backend: Backend,
    os: F,
    allow_synthetic: bool,
) -> (listing: Result<Vec<String>, String>)
    requires
        forall|call: OsCall| os.requires((call,)),
    ensures
        listed_by(os, backend, allow_synthetic, names_view(listing)),
{
    match listing_command(backend) {
        Some(call) => {
            let ghost asked = call;
            let reply = os(call);
            let ghost given = reply;
            let listing = read_listing(backend, reply, allow_synthetic);
            assert(asked@ == listing_call(backend)->0 && os.ensures((asked,), given));
            listing
        },
        None => Err(String::from_str(NO_DISCOVERY)),
    }
}

/// Lists the printers of the spooler.
pub fn get_windows_printers<F: Fn(OsCall) -> OsReply>(
    os: F,
    allow_synthetic: bool,
) -> (listing: Result<Vec<String>, String>)
    requires
        forall|call: OsCall| os.requires((call,)),
    ensures
        listed_by(os, Backend::Spooler, allow_synthetic, names_view(listing)),
{
    list_printers(Backend::Spooler, os, allow_synthetic)
}

/// Lists the printers of the shell utility.
pub fn get_macos_printers<F: Fn(OsCall) -> OsReply>(
    os: F,
    allow_synthetic: bool,
) -> (listing: Result<Vec<String>, String>)
    requires
        forall|call: OsCall| os.requires((call,)),
    ensures
        listed_by(os, Backend::ShellUtility, allow_synthetic, names_view(listing)),
{
    list_printers(Backend::ShellUtility, os, allow_synthetic)
}

/// Discovers the installed printers.  The one query that is made is not
/// made again: its failure is reported as it is.
pub fn get_printers<F: Fn(OsCall) -> OsReply>(
    backend: Backend,
    os: F,
    allow_synthetic: bool,
) -> (result: Result<Vec<String>, String>)
    requires
        forall|call: OsCall| os.requires((call,)),
    ensures
        exists|listing: Result<Seq<Seq<char>>, Seq<char>>|
            #![trigger listed_by(os, backend, allow_synthetic, listing)]
            listed_by(os, backend, allow_synthetic, listing) && names_view(result)
                == discovery_outcome(backend, listing),
{
    let listing = list_printers(backend, os, allow_synthetic);
    let ghost found = names_view(listing);
    match listing {
        Ok(names) => Ok(names),
        Err(message) => match backend {
            Backend::Unsupported => Err(message),
            _ => Err(prefixed("Failed to get printers: ", message.as_str())),
        },
    }
}

} // verus!
