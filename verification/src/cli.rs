//! The command line.
use crate::order;
use crate::text;
use vstd::prelude::*;
use vstd::string::*;

verus! {

// ---------------------------------------------------------------------------
// Options
// ---------------------------------------------------------------------------

/// The first position at or behind `i` at which one of two flags stands.
pub open spec fn flag_from(args: Seq<Seq<char>>, a: Seq<char>, b: Seq<char>, i: int) -> Option<int>
    decreases args.len() - i,
{
    if i < 0 || i >= args.len() {
        None
    } else if args[i] == a || args[i] == b {
        Some(i)
    } else {
        flag_from(args, a, b, i + 1)
    }
}

/// The first position at which one of two flags stands.
pub open spec fn flag_at(args: Seq<Seq<char>>, a: Seq<char>, b: Seq<char>) -> Option<int> {
    flag_from(args, a, b, 0)
}

proof fn lemma_flag(args: Seq<Seq<char>>, a: Seq<char>, b: Seq<char>, i: int)
    requires
        0 <= i,
    ensures
        match flag_from(args, a, b, i) {
            Some(k) => i <= k < args.len() && (args[k] == a || args[k] == b) && forall|j: int|
                #![auto]
                i <= j < k ==> args[j] != a && args[j] != b,
            None => forall|j: int| #![auto] i <= j < args.len() ==> args[j] != a && args[j] != b,
        },
    decreases args.len() - i,
{
    if i < args.len() && args[i] != a && args[i] != b {
        lemma_flag(args, a, b, i + 1);
    }
}

fn find_flag(args: &Vec<String>, a: &str, b: &str) -> (r: Option<usize>)
    ensures
        match r {
            Some(k) => k < args@.len() && flag_at(text::views(args@), a@, b@) == Some(k as int),
            None => flag_at(text::views(args@), a@, b@) is None,
        },
{
    let ghost v = text::views(args@);
    let mut i: usize = 0;
    while i < args.len()
        invariant
            v == text::views(args@),
            i <= args@.len(),
            flag_at(v, a@, b@) == flag_from(v, a@, b@, i as int),
        decreases args@.len() - i,
    {
        proof {
            assert(v[i as int] == args@[i as int]@);
        }
        if text::same(args[i].as_str(), a) || text::same(args[i].as_str(), b) {
            return Some(i);
        }
        i += 1;
    }
    None
}

/// Takes an option with a value out of the arguments, under one of two names: the value,
/// and the arguments without the two. A flag without a value stays where it is.
pub open spec fn stripped(args: Seq<Seq<char>>, a: Seq<char>, b: Seq<char>) -> (
    Option<Seq<char>>,
    Seq<Seq<char>>,
) {
    match flag_at(args, a, b) {
        Some(i) => if i + 1 < args.len() {
            (Some(args[i + 1]), args.remove(i + 1).remove(i))
        } else {
            (None, args)
        },
        None => (None, args),
    }
}

/// Takes an option with a value out of the arguments, under one of two names.
pub fn strip_arg_string(args: &mut Vec<String>, flag1: &str, flag2: &str) -> (r: Option<String>)
    ensures
        (text::option_view(r), text::views(final(args)@)) == stripped(
            text::views(old(args)@),
            flag1@,
            flag2@,
        ),
{
    let ghost before = text::views(args@);
    match find_flag(args, flag1, flag2) {
        Some(i) => {
            if i < args.len() - 1 {
                let val = args.remove(i + 1);
                args.remove(i);
                proof {
                    assert(text::views(args@) =~= before.remove(i + 1).remove(i as int));
                }
                Some(val)
            } else {
                None
            }
        },
        None => None,
    }
}

/// Takes a flag out of the arguments. Says whether it was there.
pub fn strip_arg_bool(args: &mut Vec<String>, flag: &str) -> (r: bool)
    ensures
        match flag_at(text::views(old(args)@), flag@, flag@) {
            Some(i) => r && text::views(final(args)@) == text::views(old(args)@).remove(i),
            None => !r && text::views(final(args)@) == text::views(old(args)@),
        },
{
    let ghost before = text::views(args@);
    match find_flag(args, flag, flag) {
        Some(i) => {
            args.remove(i);
            proof {
                assert(text::views(args@) =~= before.remove(i as int));
            }
            true
        },
        None => false,
    }
}

/// What is done before anything else.
#[derive(Debug, Copy, Clone, PartialEq, Eq, Structural)]
pub enum Intercept {
    Help,
    Version,
    Nothing,
}

pub open spec fn asks_for_help(args: Seq<Seq<char>>) -> bool {
    args.contains("--help"@) || args.contains("-h"@) || args.contains("help"@)
}

pub open spec fn asks_for_version(args: Seq<Seq<char>>) -> bool {
    args.contains("--version"@) || args.contains("-V"@) || args.contains("version"@)
}

/// What is done before anything else: help goes first, then the version.
pub open spec fn intercepted(args: Seq<Seq<char>>) -> Intercept {
    if asks_for_help(args) {
        Intercept::Help
    } else if asks_for_version(args) {
        Intercept::Version
    } else {
        Intercept::Nothing
    }
}

fn has_arg(args: &Vec<String>, word: &str) -> (r: bool)
    ensures
        r == text::views(args@).contains(word@),
{
    let ghost v = text::views(args@);
    match find_flag(args, word, word) {
        Some(i) => {
            proof {
                lemma_flag(v, word@, word@, 0);
                assert(v[i as int] == word@);
            }
            true
        },
        None => {
            proof {
                lemma_flag(v, word@, word@, 0);
                if v.contains(word@) {
                    assert(v[v.index_of(word@)] == word@);
                }
            }
            false
        },
    }
}

/// Whether help or the version is asked for, wherever in the arguments. Help goes first.
pub fn intercept(args: &Vec<String>) -> (r: Intercept)
    ensures
        r == intercepted(text::views(args@)),
        r == if asks_for_help(text::views(args@)) {
            Intercept::Help
        } else if asks_for_version(text::views(args@)) {
            Intercept::Version
        } else {
            Intercept::Nothing
        },
{
    if has_arg(args, "--help") || has_arg(args, "-h") || has_arg(args, "help") {
        Intercept::Help
    } else if has_arg(args, "--version") || has_arg(args, "-V") || has_arg(args, "version") {
        Intercept::Version
    } else {
        Intercept::Nothing
    }
}

// ---------------------------------------------------------------------------
// Subcommands
// ---------------------------------------------------------------------------

/// What a subcommand does.
#[derive(Debug, PartialEq, Eq)]
pub enum Subcommand {
    List,
    Pair,
    Unpair(String),
    Chime(String),
    Fix,
    /// Bytes in hexadecimal, with commas between them.
    Raw(String),
    Unknown(String),
}

/// The model of a subcommand.
pub enum SubcommandView {
    List,
    Pair,
    Unpair(Seq<char>),
    Chime(Seq<char>),
    Fix,
    Raw(Seq<char>),
    Unknown(Seq<char>),
}

impl View for Subcommand {
    type V = SubcommandView;

    open spec fn view(&self) -> SubcommandView {
        match self {
            Subcommand::List => SubcommandView::List,
            Subcommand::Pair => SubcommandView::Pair,
            Subcommand::Unpair(m) => SubcommandView::Unpair(m@),
            Subcommand::Chime(m) => SubcommandView::Chime(m@),
            Subcommand::Fix => SubcommandView::Fix,
            Subcommand::Raw(s) => SubcommandView::Raw(s@),
            Subcommand::Unknown(s) => SubcommandView::Unknown(s@),
        }
    }
}

/// The argument that a subcommand lacks.
#[derive(Debug, Copy, Clone, PartialEq, Eq, Structural)]
pub enum MissingArgument {
    Mac,
    Bytes,
}

impl MissingArgument {
    /// The message for the error, to one who asks a running daemon or the dongle itself.
    pub open spec fn text(self, via_daemon: bool) -> &'static str {
        match (self, via_daemon) {
            (MissingArgument::Mac, true) => "Missing sensor MAC address argument",
            (MissingArgument::Mac, false) => "Missing MAC address",
            (MissingArgument::Bytes, true) => "Missing comma-separated hex bytes string argument",
            (MissingArgument::Bytes, false) => "Missing comma-separated hex bytes argument",
        }
    }

    /// The message for the error.
    pub fn message(self, via_daemon: bool) -> (r: &'static str)
        ensures
            r == self.text(via_daemon),
    {
        match (self, via_daemon) {
            (MissingArgument::Mac, true) => "Missing sensor MAC address argument",
            (MissingArgument::Mac, false) => "Missing MAC address",
            (MissingArgument::Bytes, true) => "Missing comma-separated hex bytes string argument",
            (MissingArgument::Bytes, false) => "Missing comma-separated hex bytes argument",
        }
    }
}

/// What a word and the arguments behind it ask for.
pub open spec fn subcommand(cmd: Seq<char>, args: Seq<Seq<char>>) -> Result<
    SubcommandView,
    MissingArgument,
> {
    if cmd == "list"@ {
        Ok(SubcommandView::List)
    } else if cmd == "pair"@ {
        Ok(SubcommandView::Pair)
    } else if cmd == "unpair"@ {
        if args.len() == 0 {
            Err(MissingArgument::Mac)
        } else {
            Ok(SubcommandView::Unpair(args[0]))
        }
    } else if cmd == "chime"@ {
        if args.len() == 0 {
            Err(MissingArgument::Mac)
        } else {
            Ok(SubcommandView::Chime(args[0]))
        }
    } else if cmd == "fix"@ {
        Ok(SubcommandView::Fix)
    } else if cmd == "raw"@ {
        if args.len() == 0 {
            Err(MissingArgument::Bytes)
        } else {
            Ok(SubcommandView::Raw(args[0]))
        }
    } else {
        Ok(SubcommandView::Unknown(cmd))
    }
}

/// What a word in lower case and the arguments behind it ask for.
pub fn read_subcommand(cmd: &str, args: &[String]) -> (r: Result<Subcommand, MissingArgument>)
    ensures
        match r {
            Ok(c) => subcommand(cmd@, text::views(args@)) == Ok::<SubcommandView, MissingArgument>(
                c@,
            ),
            Err(e) => subcommand(cmd@, text::views(args@)) == Err::<
                SubcommandView,
                MissingArgument,
            >(e),
        },
{
    if text::same(cmd, "list") {
        Ok(Subcommand::List)
    } else if text::same(cmd, "pair") {
        Ok(Subcommand::Pair)
    } else if text::same(cmd, "unpair") {
        if args.len() == 0 {
            Err(MissingArgument::Mac)
        } else {
            Ok(Subcommand::Unpair(args[0].clone()))
        }
    } else if text::same(cmd, "chime") {
        if args.len() == 0 {
            Err(MissingArgument::Mac)
        } else {
            Ok(Subcommand::Chime(args[0].clone()))
        }
    } else if text::same(cmd, "fix") {
        Ok(Subcommand::Fix)
    } else if text::same(cmd, "raw") {
        if args.len() == 0 {
            Err(MissingArgument::Bytes)
        } else {
            Ok(Subcommand::Raw(args[0].clone()))
        }
    } else {
        Ok(Subcommand::Unknown(cmd.to_owned()))
    }
}

/// The word of a subcommand in lower case; nothing where no subcommand was given.
pub fn subcommand_word(args: &Vec<String>) -> (r: Option<String>)
    ensures
        text::option_view(r) == if args@.len() > 1 {
            Some(text::lowercase(args@[1]@))
        } else {
            None
        },
{
    if args.len() > 1 {
        Some(text::to_lowercase(args[1].as_str()))
    } else {
        None
    }
}

// ---------------------------------------------------------------------------
// Options of the other programs
// ---------------------------------------------------------------------------

/// Why options could not be read.
#[derive(Debug, PartialEq, Eq)]
pub enum OptionError {
    /// Help is asked for.
    Help,
    /// The option at this place among the names has no value.
    MissingValue(usize),
    Unknown(String),
}

/// The model of why options could not be read.
pub enum OptionErrorView {
    Help,
    MissingValue(int),
    Unknown(Seq<char>),
}

impl View for OptionError {
    type V = OptionErrorView;

    open spec fn view(&self) -> OptionErrorView {
        match self {
            OptionError::Help => OptionErrorView::Help,
            OptionError::MissingValue(n) => OptionErrorView::MissingValue(*n as int),
            OptionError::Unknown(s) => OptionErrorView::Unknown(s@),
        }
    }
}

/// The names of options, each with its short form.
pub open spec fn pairs(names: Seq<(&str, &str)>) -> Seq<(Seq<char>, Seq<char>)> {
    Seq::new(names.len(), |i: int| (names[i].0@, names[i].1@))
}

/// Values that may be missing.
pub open spec fn option_views(s: Seq<Option<String>>) -> Seq<Option<Seq<char>>> {
    Seq::new(s.len(), |i: int| text::option_view(s[i]))
}

/// The place of a word among the names from `k` on.
pub open spec fn name_from(names: Seq<(Seq<char>, Seq<char>)>, word: Seq<char>, k: int) -> Option<
    int,
>
    decreases names.len() - k,
{
    if k < 0 || k >= names.len() {
        None
    } else if names[k].0 == word || names[k].1 == word {
        Some(k)
    } else {
        name_from(names, word, k + 1)
    }
}

/// The values of options, read from the argument at `i` on. A later value takes the place
/// of an earlier one.
pub open spec fn options_from(
    args: Seq<Seq<char>>,
    names: Seq<(Seq<char>, Seq<char>)>,
    values: Seq<Option<Seq<char>>>,
    i: int,
) -> Result<Seq<Option<Seq<char>>>, OptionErrorView>
    decreases args.len() - i,
{
    if i < 0 || i >= args.len() {
        Ok(values)
    } else {
        match name_from(names, args[i], 0) {
            Some(k) => if i + 1 < args.len() {
                options_from(args, names, values.update(k, Some(args[i + 1])), i + 2)
            } else {
                Err(OptionErrorView::MissingValue(k))
            },
            None => if args[i] == "--help"@ || args[i] == "-h"@ {
                Err(OptionErrorView::Help)
            } else {
                Err(OptionErrorView::Unknown(args[i]))
            },
        }
    }
}

/// The values of options, with the name of the program in front of them.
pub open spec fn options_of(
    args: Seq<Seq<char>>,
    names: Seq<(Seq<char>, Seq<char>)>,
) -> Result<Seq<Option<Seq<char>>>, OptionErrorView> {
    options_from(args, names, Seq::new(names.len(), |i: int| None::<Seq<char>>), 1)
}

fn find_name(names: &[(&str, &str)], word: &str) -> (r: Option<usize>)
    ensures
        match r {
            Some(k) => k < names@.len() && name_from(pairs(names@), word@, 0) == Some(k as int),
            None => name_from(pairs(names@), word@, 0) is None,
        },
{
    let ghost p = pairs(names@);
    let mut k: usize = 0;
    while k < names.len()
        invariant
            k <= names@.len(),
            p == pairs(names@),
            name_from(p, word@, 0) == name_from(p, word@, k as int),
        decreases names@.len() - k,
    {
        if text::same(names[k].0, word) || text::same(names[k].1, word) {
            return Some(k);
        }
        k += 1;
    }
    None
}

/// Reads options that all have a value.
pub fn read_plain_options(args: &[String], names: &[(&str, &str)]) -> (r: Result<
    Vec<Option<String>>,
    OptionError,
>)
    ensures
        match r {
            Ok(v) => options_of(text::views(args@), pairs(names@)) == Ok::<
                Seq<Option<Seq<char>>>,
                OptionErrorView,
            >(option_views(v@)),
            Err(e) => options_of(text::views(args@), pairs(names@)) == Err::<
                Seq<Option<Seq<char>>>,
                OptionErrorView,
            >(e@),
        },
{
    let ghost a = text::views(args@);
    let ghost p = pairs(names@);
    let mut values: Vec<Option<String>> = Vec::new();
    let mut n: usize = 0;
    while n < names.len()
        invariant
            n <= names@.len(),
            values@.len() == n,
            forall|j: int| 0 <= j < n ==> (#[trigger] values@[j]) is None,
        decreases names@.len() - n,
    {
        values.push(None);
        n += 1;
    }
    proof {
        assert(option_views(values@) =~= Seq::new(p.len(), |i: int| None::<Seq<char>>));
    }
    let mut i: usize = 1;
    while i < args.len()
        invariant
            i >= 1,
            i <= args@.len() || i == 1,
            a == text::views(args@),
            p == pairs(names@),
            values@.len() == names@.len(),
            options_of(a, p) == options_from(a, p, option_views(values@), i as int),
        decreases args@.len() - i,
    {
        proof {
            assert(a[i as int] == args@[i as int]@);
        }
        match find_name(names, args[i].as_str()) {
            Some(k) => {
                if i < args.len() - 1 {
                    let ghost before = option_views(values@);
                    values.set(k, Some(args[i + 1].clone()));
                    proof {
                        assert(option_views(values@) =~= before.update(
                            k as int,
                            Some(a[i + 1]),
                        ));
                    }
                    i += 2;
                } else {
                    return Err(OptionError::MissingValue(k));
                }
            },
            None => {
                if text::same(args[i].as_str(), "--help") || text::same(args[i].as_str(), "-h") {
                    return Err(OptionError::Help);
                }
                return Err(OptionError::Unknown(args[i].clone()));
            },
        }
    }
    Ok(values)
}

// ---------------------------------------------------------------------------
// Log files
// ---------------------------------------------------------------------------

/// A rotated log file, by its name.
pub open spec fn is_old_log(name: Seq<char>, prefix: Seq<char>, suffix: Seq<char>) -> bool {
    text::has_prefix(name, prefix) && text::has_suffix(name, suffix) && name != prefix + "."@
        + suffix
}

/// Those of the names that are rotated log files.
pub open spec fn old_logs(
    names: Seq<Seq<char>>,
    prefix: Seq<char>,
    suffix: Seq<char>,
) -> Seq<Seq<char>>
    decreases names.len(),
{
    if names.len() == 0 {
        Seq::empty()
    } else if is_old_log(names.last(), prefix, suffix) {
        old_logs(names.drop_last(), prefix, suffix).push(names.last())
    } else {
        old_logs(names.drop_last(), prefix, suffix)
    }
}

/// Those of the log files in their order that are too many: the first ones.
pub open spec fn too_many(all: Seq<Seq<char>>, max_files: int) -> Seq<Seq<char>> {
    if all.len() > max_files {
        all.subrange(0, all.len() - max_files)
    } else {
        Seq::empty()
    }
}

/// The rotated log files to remove so that as many stay as may: the first ones, since
/// their names hold their dates.
pub fn logs_to_remove(names: &[String], prefix: &str, suffix: &str, max_files: usize) -> (r: Vec<
    String,
>)
    ensures
        exists|all: Seq<Seq<char>>|
            {
                &&& #[trigger] order::ascending(all)
                &&& all.to_multiset() == old_logs(
                    text::views(names@),
                    prefix@,
                    suffix@,
                ).to_multiset()
                &&& text::views(r@) == if all.len() > max_files {
                    all.subrange(0, all.len() - max_files)
                } else {
                    Seq::empty()
                }
                &&& text::views(r@) == too_many(all, max_files as int)
            },
{
    let ghost v = text::views(names@);
    let mut current = prefix.to_owned();
    current.append(".");
    current.append(suffix);
    let mut found: Vec<String> = Vec::new();
    proof {
        assert(text::views(found@) =~= Seq::empty());
    }
    let mut i: usize = 0;
    while i < names.len()
        invariant
            i <= names@.len(),
            v == text::views(names@),
            current@ == prefix@ + "."@ + suffix@,
            text::views(found@) == old_logs(v.subrange(0, i as int), prefix@, suffix@),
        decreases names@.len() - i,
    {
        let name = names[i].as_str();
        proof {
            let w = v.subrange(0, i + 1);
            assert(w.drop_last() =~= v.subrange(0, i as int));
            assert(w.last() == name@);
        }
        if text::starts_with(name, prefix) && text::ends_with(name, suffix) && !text::same(
            name,
            current.as_str(),
        ) {
            let ghost before = found@;
            found.push(name.to_owned());
            proof {
                assert(text::views(found@) =~= text::views(before).push(name@));
            }
        }
        i += 1;
    }
    proof {
        assert(v.subrange(0, v.len() as int) =~= v);
    }
    let mut sorted = order::sort_texts(found);
    let ghost all = text::views(sorted@);
    if sorted.len() > max_files {
        let n: usize = sorted.len() - max_files;
        sorted.truncate(n);
        proof {
            assert(text::views(sorted@) =~= all.subrange(0, all.len() - max_files));
            assert(order::ascending(all));
        }
        sorted
    } else {
        let none: Vec<String> = Vec::new();
        proof {
            assert(text::views(none@) =~= Seq::empty());
            assert(order::ascending(all));
        }
        none
    }
}

// ---------------------------------------------------------------------------
// Laws
// ---------------------------------------------------------------------------

/// An option is taken out of the arguments as it was put in, wherever it stands, and the
/// other arguments stay in their order.
pub proof fn law_option_is_taken_out(
    before: Seq<Seq<char>>,
    flag: Seq<char>,
    other: Seq<char>,
    value: Seq<char>,
    after: Seq<Seq<char>>,
)
    requires
        forall|i: int| 0 <= i < before.len() ==> #[trigger] before[i] != flag && before[i] != other,
    ensures
        stripped(before + seq![flag, value] + after, flag, other) == (
            Some(value),
            before + after,
        ),
{
    let args = before + seq![flag, value] + after;
    let k = before.len() as int;
    lemma_flag(args, flag, other, 0);
    assert(args[k] == flag);
    match flag_at(args, flag, other) {
        Some(i) => {
            if i < k {
                assert(args[i] == before[i]);
            }
            assert(i == k);
            assert(args[k + 1] == value);
            assert(args.remove(k + 1).remove(k) =~= before + after);
        },
        None => {},
    }
}

/// Arguments without the option stay as they are.
pub proof fn law_absent_option_changes_nothing(
    args: Seq<Seq<char>>,
    flag: Seq<char>,
    other: Seq<char>,
)
    requires
        !args.contains(flag),
        !args.contains(other),
    ensures
        stripped(args, flag, other) == (None::<Seq<char>>, args),
{
    lemma_flag(args, flag, other, 0);
}

/// A flag is found where it stands first, by either of its two names.
pub proof fn law_flag_is_the_first(args: Seq<Seq<char>>, a: Seq<char>, b: Seq<char>)
    ensures
        match flag_at(args, a, b) {
            Some(k) => 0 <= k < args.len() && (args[k] == a || args[k] == b) && forall|j: int|
                0 <= j < k ==> (#[trigger] args[j]) != a && args[j] != b,
            None => forall|j: int| 0 <= j < args.len() ==> (#[trigger] args[j]) != a && args[j] != b,
        },
{
    lemma_flag(args, a, b, 0);
}

/// An option is taken out of the arguments by its short name as by its long one.
pub proof fn law_short_option_is_taken_out(
    before: Seq<Seq<char>>,
    flag: Seq<char>,
    other: Seq<char>,
    value: Seq<char>,
    after: Seq<Seq<char>>,
)
    requires
        forall|i: int| 0 <= i < before.len() ==> #[trigger] before[i] != flag && before[i] != other,
    ensures
        stripped(before + seq![other, value] + after, flag, other) == (
            Some(value),
            before + after,
        ),
{
    let args = before + seq![other, value] + after;
    let k = before.len() as int;
    lemma_flag(args, flag, other, 0);
    assert(args[k] == other);
    match flag_at(args, flag, other) {
        Some(i) => {
            if i < k {
                assert(args[i] == before[i]);
            }
            assert(i == k);
            assert(args[k + 1] == value);
            assert(args.remove(k + 1).remove(k) =~= before + after);
        },
        None => {},
    }
}

/// Help goes before the version, and both before anything else; each is asked for by its
/// long name, its short name or the bare word, wherever it stands.
pub proof fn law_help_and_version(args: Seq<Seq<char>>, i: int)
    requires
        0 <= i < args.len(),
    ensures
        args[i] == "--help"@ || args[i] == "-h"@ || args[i] == "help"@ ==> asks_for_help(args),
        args[i] == "--version"@ || args[i] == "-V"@ || args[i] == "version"@ ==> asks_for_version(
            args,
        ),
        args[i] == "--help"@ || args[i] == "-h"@ || args[i] == "help"@ ==> intercepted(args) is Help,
        (args[i] == "--version"@ || args[i] == "-V"@ || args[i] == "version"@) && !args.contains(
            "--help"@,
        ) && !args.contains("-h"@) && !args.contains("help"@) ==> intercepted(args) is Version,
        intercepted(Seq::empty()) is Nothing,
{
}

/// A subcommand is what its word says, with the argument behind it where it needs one.
pub proof fn law_subcommands(args: Seq<Seq<char>>)
    ensures
        subcommand("list"@, args) == Ok::<SubcommandView, MissingArgument>(SubcommandView::List),
        subcommand("pair"@, args) == Ok::<SubcommandView, MissingArgument>(SubcommandView::Pair),
        subcommand("fix"@, args) == Ok::<SubcommandView, MissingArgument>(SubcommandView::Fix),
        args.len() > 0 ==> {
            &&& subcommand("unpair"@, args) == Ok::<SubcommandView, MissingArgument>(
                SubcommandView::Unpair(args[0]),
            )
            &&& subcommand("chime"@, args) == Ok::<SubcommandView, MissingArgument>(
                SubcommandView::Chime(args[0]),
            )
            &&& subcommand("raw"@, args) == Ok::<SubcommandView, MissingArgument>(
                SubcommandView::Raw(args[0]),
            )
        },
        args.len() == 0 ==> {
            &&& subcommand("unpair"@, args) == Err::<SubcommandView, MissingArgument>(
                MissingArgument::Mac,
            )
            &&& subcommand("chime"@, args) == Err::<SubcommandView, MissingArgument>(
                MissingArgument::Mac,
            )
            &&& subcommand("raw"@, args) == Err::<SubcommandView, MissingArgument>(
                MissingArgument::Bytes,
            )
        },
{
    reveal_strlit("list");
    reveal_strlit("pair");
    reveal_strlit("unpair");
    reveal_strlit("chime");
    reveal_strlit("fix");
    reveal_strlit("raw");
    assert("list"@.len() == 4 && "pair"@.len() == 4 && "list"@[0] == 'l' && "pair"@[0] == 'p');
    assert("unpair"@.len() == 6 && "chime"@.len() == 5);
    assert("fix"@.len() == 3 && "raw"@.len() == 3 && "fix"@[0] == 'f' && "raw"@[0] == 'r');
}

/// A word that names no subcommand is handed back as it is.
pub proof fn law_other_words_are_unknown(word: Seq<char>, args: Seq<Seq<char>>)
    requires
        word != "list"@,
        word != "pair"@,
        word != "unpair"@,
        word != "chime"@,
        word != "fix"@,
        word != "raw"@,
    ensures
        subcommand(word, args) == Ok::<SubcommandView, MissingArgument>(
            SubcommandView::Unknown(word),
        ),
{
}

/// An option is read under its own name, the last of several values counts, and what is not
/// among the names is refused, but for the request for help.
pub proof fn law_plain_options(
    args: Seq<Seq<char>>,
    names: Seq<(Seq<char>, Seq<char>)>,
    values: Seq<Option<Seq<char>>>,
    i: int,
)
    requires
        0 <= i < args.len(),
    ensures
        ({
            let listed = exists|k: int|
                #![trigger names[k]]
                0 <= k < names.len() && (names[k].0 == args[i] || names[k].1 == args[i]);
            &&& !listed && (args[i] == "--help"@ || args[i] == "-h"@) ==> options_from(
                args,
                names,
                values,
                i,
            ) == Err::<Seq<Option<Seq<char>>>, OptionErrorView>(OptionErrorView::Help)
            &&& !listed && args[i] != "--help"@ && args[i] != "-h"@ ==> options_from(
                args,
                names,
                values,
                i,
            ) == Err::<Seq<Option<Seq<char>>>, OptionErrorView>(OptionErrorView::Unknown(args[i]))
            &&& listed ==> exists|k: int|
                #![trigger names[k]]
                {
                    &&& 0 <= k < names.len()
                    &&& names[k].0 == args[i] || names[k].1 == args[i]
                    &&& i + 1 == args.len() ==> options_from(args, names, values, i) == Err::<
                        Seq<Option<Seq<char>>>,
                        OptionErrorView,
                    >(OptionErrorView::MissingValue(k))
                    &&& i + 1 < args.len() ==> options_from(args, names, values, i)
                        == options_from(args, names, values.update(k, Some(args[i + 1])), i + 2)
                }
        }),
{
    lemma_name(names, args[i], 0);
    match name_from(names, args[i], 0) {
        Some(k) => {
            assert(names[k].0 == args[i] || names[k].1 == args[i]);
        },
        None => {},
    }
}

proof fn lemma_name(names: Seq<(Seq<char>, Seq<char>)>, word: Seq<char>, k: int)
    requires
        0 <= k,
    ensures
        match name_from(names, word, k) {
            Some(n) => k <= n < names.len() && (names[n].0 == word || names[n].1 == word),
            None => forall|n: int|
                #![trigger names[n]]
                k <= n < names.len() ==> names[n].0 != word && names[n].1 != word,
        },
    decreases names.len() - k,
{
    if k < names.len() && names[k].0 != word && names[k].1 != word {
        lemma_name(names, word, k + 1);
    }
}

/// Rotated log files are those whose names start and end like that of the log, but for the
/// log itself; all of them are found.
pub proof fn law_old_logs(
    names: Seq<Seq<char>>,
    prefix: Seq<char>,
    suffix: Seq<char>,
    name: Seq<char>,
)
    ensures
        old_logs(names, prefix, suffix).contains(name) <==> {
            &&& names.contains(name)
            &&& text::has_prefix(name, prefix)
            &&& text::has_suffix(name, suffix)
            &&& name != prefix + "."@ + suffix
        },
    decreases names.len(),
{
    if names.len() > 0 {
        let d = names.drop_last();
        law_old_logs(d, prefix, suffix, name);
        let o = old_logs(d, prefix, suffix);
        assert(names.contains(name) <==> d.contains(name) || name == names.last()) by {
            if d.contains(name) {
                assert(names[d.index_of(name)] == name);
            }
            if names.contains(name) && name != names.last() {
                assert(d[names.index_of(name)] == name);
            }
            assert(names[names.len() - 1] == names.last());
        }
        assert(o.push(names.last()).contains(name) <==> o.contains(name) || name == names.last())
            by {
            if o.contains(name) {
                assert(o.push(names.last())[o.index_of(name)] == name);
            }
            assert(o.push(names.last())[o.len() as int] == names.last());
        }
    }
}

/// As many log files stay as may, or all where there are fewer, and those that stay are the
/// last ones.
pub proof fn law_the_last_logs_stay(all: Seq<Seq<char>>, max_files: int)
    requires
        0 <= max_files,
    ensures
        all.len() - too_many(all, max_files).len() == if all.len() < max_files {
            all.len() as int
        } else {
            max_files
        },
        too_many(all, max_files) == all.subrange(0, too_many(all, max_files).len() as int),
{
}

/// The first word is the name of the program and says nothing; what follows it is read from
/// its first word on, and without more words no option has a value.
pub proof fn law_program_name_says_nothing(
    program: Seq<char>,
    word: Seq<char>,
    value: Seq<char>,
    names: Seq<(Seq<char>, Seq<char>)>,
)
    ensures
        options_of(seq![program], names) == Ok::<Seq<Option<Seq<char>>>, OptionErrorView>(
            Seq::new(names.len(), |i: int| None::<Seq<char>>),
        ),
        name_from(names, word, 0) is None && word != "--help"@ && word != "-h"@ ==> options_of(
            seq![program, word],
            names,
        ) == Err::<Seq<Option<Seq<char>>>, OptionErrorView>(OptionErrorView::Unknown(word)),
        name_from(names, word, 0) matches Some(k) ==> options_of(seq![program, word, value], names)
            == Ok::<Seq<Option<Seq<char>>>, OptionErrorView>(
            Seq::new(names.len(), |i: int| None::<Seq<char>>).update(k, Some(value)),
        ),
{
    let none = Seq::new(names.len(), |i: int| None::<Seq<char>>);
    let args = seq![program, word, value];
    match name_from(names, word, 0) {
        Some(k) => {
            assert(args[1] == word && args[2] == value);
            assert(options_from(args, names, none.update(k, Some(value)), 3) == Ok::<
                Seq<Option<Seq<char>>>,
                OptionErrorView,
            >(none.update(k, Some(value))));
        },
        None => {},
    }
}

} // verus!
