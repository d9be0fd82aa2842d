//! The decisions of the build tool that bundles and launches the
//! `borderless` example as a real `.app`.
//!
//! An unbundled, background-launched process cannot activate on macOS 14+,
//! so its window never becomes key, and the glass renders differently when
//! its window is not key. Launching a real bundle through `open` is what
//! makes a measurement valid. The tool's file-system and process work lives
//! with the host; what it decides lives here.

use vstd::prelude::*;

use crate::text::{
    debug_quoted, lemma_text_less_irreflexive, lemma_text_less_transitive, quote_debug, str_eq, text_less,
};

verus! {

/// The example that is bundled.
pub const EXAMPLE: &'static str = "borderless";

/// The bundle identifier.
pub const BUNDLE_ID: &'static str = "com.logger.macosliquidglass.borderless";

/// The app's declared floor. The binary is stamped for macOS 27 and
/// LaunchServices refuses a bundle whose floor it cannot honour; the library
/// itself needs only macOS 26 at runtime.
pub const MIN_SYSTEM_VERSION: &'static str = "27.0";

/// How long the launched app runs before it terminates itself, in seconds,
/// unless `GN_SECS` says otherwise: a sweep cannot leave a drift of orphaned
/// windows behind.
pub const DEFAULT_SECS: &'static str = "600";

/// The knobs forwarded into the launched app. `open` does not inherit the
/// caller's environment, so a knob missing here silently does nothing when
/// swept.
pub const KNOBS: &'static [&'static str; 14] = &[
    "GN_ORIGIN",
    "GN_GLASS",
    "GN_SHADOW",
    "GN_TINT_SPACE",
    "GN_TINT",
    "GN_PAPER_L",
    "GN_PAPER_D",
    "GN_GTINT",
    "GN_GT_D",
    "GN_GT_L",
    "GN_HUE",
    "GN_HSAT",
    "GN_TBODY",
    "GN_POLL",
];

/// Every variable a launch can pass, `GN_SECS` and each of [`KNOBS`],
/// ordered by name as `str` orders text: the order they are passed in.
pub const ENV_ORDER: &'static [&'static str; 15] = &[
    "GN_GLASS",
    "GN_GTINT",
    "GN_GT_D",
    "GN_GT_L",
    "GN_HSAT",
    "GN_HUE",
    "GN_ORIGIN",
    "GN_PAPER_D",
    "GN_PAPER_L",
    "GN_POLL",
    "GN_SECS",
    "GN_SHADOW",
    "GN_TBODY",
    "GN_TINT",
    "GN_TINT_SPACE",
];

/// The `Info.plist` of the bundle.
pub open spec fn plist_text() -> Seq<char> {
    "<?xml version=\"1.0\" encoding=\"UTF-8\"?>\n<!DOCTYPE plist PUBLIC \"-//Apple//DTD PLIST 1.0//EN\" \"http://www.apple.com/DTDs/PropertyList-1.0.dtd\">\n<plist version=\"1.0\"><dict>\n  <key>CFBundleExecutable</key><string>"@
        + EXAMPLE@ + "</string>\n  <key>CFBundleIdentifier</key><string>"@ + BUNDLE_ID@
        + "</string>\n  <key>CFBundleName</key><string>"@ + EXAMPLE@
        + "</string>\n  <key>CFBundlePackageType</key><string>APPL</string>\n  <key>CFBundleShortVersionString</key><string>1.0</string>\n  <key>LSMinimumSystemVersion</key><string>"@
        + MIN_SYSTEM_VERSION@ + "</string>\n  <key>NSHighResolutionCapable</key><true/>\n</dict></plist>\n"@
}

/// The `Info.plist` of the bundle.
pub fn info_plist() -> (plist: String)
    ensures
        plist@ == plist_text(),
{
    let mut plist = String::from_str(
        "<?xml version=\"1.0\" encoding=\"UTF-8\"?>\n<!DOCTYPE plist PUBLIC \"-//Apple//DTD PLIST 1.0//EN\" \"http://www.apple.com/DTDs/PropertyList-1.0.dtd\">\n<plist version=\"1.0\"><dict>\n  <key>CFBundleExecutable</key><string>",
    );
    plist.append(EXAMPLE);
    plist.append("</string>\n  <key>CFBundleIdentifier</key><string>");
    plist.append(BUNDLE_ID);
    plist.append("</string>\n  <key>CFBundleName</key><string>");
    plist.append(EXAMPLE);
    plist.append(
        "</string>\n  <key>CFBundlePackageType</key><string>APPL</string>\n  <key>CFBundleShortVersionString</key><string>1.0</string>\n  <key>LSMinimumSystemVersion</key><string>",
    );
    plist.append(MIN_SYSTEM_VERSION);
    plist.append("</string>\n  <key>NSHighResolutionCapable</key><true/>\n</dict></plist>\n");
    plist
}

/// The checks a build passes, in this order, before it is bundled.
#[derive(Debug, Clone, Copy, PartialEq, Eq, Structural)]
pub enum BuildCheck {
    /// Cargo reported success.
    Built,
    /// The binary exists as a regular file: a failed build leaves the
    /// previous binary in place, and the freshness check needs this file as
    /// its reference point.
    BinaryPresent,
    /// No counted source is newer than the binary.
    Fresh,
}

/// What follows a check: the next check, `None` to assemble the bundle, or
/// the refusal. `detail` is the binary's path for [`BuildCheck::BinaryPresent`]
/// and the newer source's path for [`BuildCheck::Fresh`].
pub open spec fn check_outcome(check: BuildCheck, passed: bool, detail: Seq<char>) -> Result<Option<BuildCheck>, Seq<char>> {
    match check {
        BuildCheck::Built => if passed {
            Ok(Some(BuildCheck::BinaryPresent))
        } else {
            Err("BUILD FAILED — nothing bundled"@)
        },
        BuildCheck::BinaryPresent => if passed {
            Ok(Some(BuildCheck::Fresh))
        } else {
            Err("BINARY MISSING — cargo reported success but produced nothing at "@ + detail)
        },
        BuildCheck::Fresh => if passed {
            Ok(None)
        } else {
            Err("BINARY STALE — "@ + detail + " is newer than the build; refusing"@)
        },
    }
}

/// Decide what follows a check of the build, given whether it passed; the
/// host performs each check and assembles the bundle on `Ok(None)`.
pub fn after_check(check: BuildCheck, passed: bool, detail: &str) -> (next: Result<Option<BuildCheck>, String>)
    ensures
        match (next, check_outcome(check, passed, detail@)) {
            (Ok(n), Ok(m)) => n == m,
            (Err(e), Err(m)) => e@ == m,
            _ => false,
        },
{
    match check {
        BuildCheck::Built => if passed {
            Ok(Some(BuildCheck::BinaryPresent))
        } else {
            Err(String::from_str("BUILD FAILED — nothing bundled"))
        },
        BuildCheck::BinaryPresent => if passed {
            Ok(Some(BuildCheck::Fresh))
        } else {
            let mut message = String::from_str("BINARY MISSING — cargo reported success but produced nothing at ");
            message.append(detail);
            Err(message)
        },
        BuildCheck::Fresh => if passed {
            Ok(None)
        } else {
            let mut message = String::from_str("BINARY STALE — ");
            message.append(detail);
            message.append(" is newer than the build; refusing");
            Err(message)
        },
    }
}

/// Starting from [`BuildCheck::Built`], the bundle is assembled only after
/// all three checks passed, in order: each passed check leads to the next,
/// only a passed freshness check leads to assembly, and a failed check
/// refuses.
pub proof fn law_bundle_only_after_every_check(check: BuildCheck, passed: bool, detail: Seq<char>)
    ensures
        check_outcome(BuildCheck::Built, true, detail) == Ok::<Option<BuildCheck>, Seq<char>>(Some(BuildCheck::BinaryPresent)),
        check_outcome(BuildCheck::BinaryPresent, true, detail) == Ok::<Option<BuildCheck>, Seq<char>>(Some(BuildCheck::Fresh)),
        check_outcome(check, passed, detail) == Ok::<Option<BuildCheck>, Seq<char>>(None) <==> (check == BuildCheck::Fresh && passed),
        check_outcome(check, passed, detail) is Err <==> !passed,
{
}

/// Whether `needle` occurs in `text` as a run of consecutive characters.
pub open spec fn holds_text(text: Seq<char>, needle: Seq<char>) -> bool {
    exists|i: int| 0 <= i && i + needle.len() <= text.len() && #[trigger] text.subrange(i, i + needle.len()) == needle
}

/// The bundle's `Info.plist` declares the app high-resolution capable, so
/// it renders at the display's full scale, and names the example's binary
/// as the bundle's executable.
pub proof fn law_plist_declares_high_resolution()
    ensures
        holds_text(plist_text(), "<key>NSHighResolutionCapable</key><true/>"@),
        holds_text(plist_text(), "<key>CFBundleExecutable</key><string>borderless</string>"@),
{
    let head = "<?xml version=\"1.0\" encoding=\"UTF-8\"?>\n<!DOCTYPE plist PUBLIC \"-//Apple//DTD PLIST 1.0//EN\" \"http://www.apple.com/DTDs/PropertyList-1.0.dtd\">\n<plist version=\"1.0\"><dict>\n  <key>CFBundleExecutable</key><string>"@;
    let tail = "</string>\n  <key>NSHighResolutionCapable</key><true/>\n</dict></plist>\n"@;
    let hi = "<key>NSHighResolutionCapable</key><true/>"@;
    let exe = "<key>CFBundleExecutable</key><string>borderless</string>"@;
    reveal_strlit("<?xml version=\"1.0\" encoding=\"UTF-8\"?>\n<!DOCTYPE plist PUBLIC \"-//Apple//DTD PLIST 1.0//EN\" \"http://www.apple.com/DTDs/PropertyList-1.0.dtd\">\n<plist version=\"1.0\"><dict>\n  <key>CFBundleExecutable</key><string>");
    reveal_strlit("</string>\n  <key>CFBundleIdentifier</key><string>");
    reveal_strlit("</string>\n  <key>NSHighResolutionCapable</key><true/>\n</dict></plist>\n");
    reveal_strlit("<key>NSHighResolutionCapable</key><true/>");
    reveal_strlit("<key>CFBundleExecutable</key><string>borderless</string>");
    reveal_strlit("borderless");
    let text = plist_text();
    let start = text.len() - tail.len() + 12;
    assert(text.subrange(start, start + hi.len()) =~= hi);
    let exe_start = head.len() - 37;
    assert(text.subrange(exe_start, exe_start + exe.len()) =~= exe);
}

/// What the tool was asked to do.
#[derive(Debug, Clone, PartialEq, Eq)]
pub enum Task {
    /// Build, verify, bundle and launch, logging under `tag`.
    Run {
        /// Names the launch's log file.
        tag: String,
    },
    /// Build and bundle, without launching.
    Bundle,
}

/// The message an unknown task is refused with.
pub open spec fn unknown_task_message(task: Seq<char>) -> Seq<char> {
    "unknown task "@ + debug_quoted(task) + "; expected `run` or `bundle`"@
}

/// What the arguments (the program name already removed) ask for: `run`
/// when there are none, `run [tag]`, `bundle`, or an error naming an unknown
/// task. A `run` without a tag logs under `run`.
pub open spec fn task_of(args: Seq<Seq<char>>) -> Result<(bool, Seq<char>), Seq<char>> {
    if args.len() == 0 {
        Ok((true, "run"@))
    } else if args[0] == "run"@ {
        Ok((true, if args.len() > 1 { args[1] } else { "run"@ }))
    } else if args[0] == "bundle"@ {
        Ok((false, Seq::<char>::empty()))
    } else {
        Err(unknown_task_message(args[0]))
    }
}

/// The abstract value of a task: whether it launches, and its tag.
pub open spec fn task_model(task: Task) -> (bool, Seq<char>) {
    match task {
        Task::Run { tag } => (true, tag@),
        Task::Bundle => (false, Seq::<char>::empty()),
    }
}

/// The text of each string, in order.
pub open spec fn texts(strings: Seq<String>) -> Seq<Seq<char>> {
    strings.map_values(|a: String| a@)
}

/// The task the command-line arguments ask for (the program name already
/// removed).
pub fn parse_task(args: &Vec<String>) -> (task: Result<Task, String>)
    ensures
        match (task, task_of(texts(args@))) {
            (Ok(t), Ok(m)) => task_model(t) == m,
            (Err(e), Err(m)) => e@ == m,
            _ => false,
        },
{
    let ghost views = texts(args@);
    if args.len() == 0 {
        return Ok(Task::Run { tag: String::from_str("run") });
    }
    let cmd = args[0].as_str();
    assert(cmd@ == views[0]);
    if str_eq(cmd, "run") {
        let tag = if args.len() > 1 {
            assert(args[1]@ == views[1]);
            args[1].clone()
        } else {
            String::from_str("run")
        };
        Ok(Task::Run { tag })
    } else if str_eq(cmd, "bundle") {
        Ok(Task::Bundle)
    } else {
        let quoted = quote_debug(cmd);
        Err(unknown_task_message_quoting(quoted.as_str()))
    }
}

/// The message an unknown task is refused with, given its name already in
/// its quoted form.
pub fn unknown_task_message_quoting(quoted: &str) -> (message: String)
    ensures
        message@ == "unknown task "@ + quoted@ + "; expected `run` or `bundle`"@,
{
    let mut message = String::from_str("unknown task ");
    message.append(quoted);
    message.append("; expected `run` or `bundle`");
    message
}

/// Whether a file with `extension` counts toward the staleness check:
/// Rust sources and manifests only. Directories never do, since their times
/// change whenever an unrelated file is added to them.
pub fn counts_toward_staleness(extension: Option<&str>) -> (counts: bool)
    ensures
        counts == (extension matches Some(e) && (e@ == "rs"@ || e@ == "toml"@)),
{
    match extension {
        Some(e) => str_eq(e, "rs") || str_eq(e, "toml"),
        None => false,
    }
}

/// Whether an entry met in the walk of the source roots makes the bundle
/// stale: a regular file (a directory or a link never does) that counts
/// toward staleness, whose modification time could be read
/// (`modified_later` is `None` when it could not) and is later than the
/// bundle's.
pub fn makes_stale(is_file: bool, extension: Option<&str>, modified_later: Option<bool>) -> (stale: bool)
    ensures
        stale == (is_file && (extension matches Some(e) && (e@ == "rs"@ || e@ == "toml"@))
            && modified_later == Some(true)),
{
    is_file && counts_toward_staleness(extension) && match modified_later {
        Some(later) => later,
        None => false,
    }
}

/// The name of the launch's log file for `tag`, which the host places in
/// `/tmp`, a path stable for readers outside the process.
pub fn log_file_name(tag: &str) -> (name: String)
    ensures
        name@ == EXAMPLE@ + "_"@ + tag@ + ".log"@,
{
    let mut name = String::from_str(EXAMPLE);
    name.append("_");
    name.append(tag);
    name.append(".log");
    name
}

/// The command-line pattern of a running instance of the bundle, which is
/// replaced by a launch.
pub fn running_instance_pattern() -> (pattern: String)
    ensures
        pattern@ == EXAMPLE@ + ".app/Contents/MacOS"@,
{
    let mut pattern = String::from_str(EXAMPLE);
    pattern.append(".app/Contents/MacOS");
    pattern
}

/// The caller's value of the knob called `name`, given the knobs' names and
/// values in order; the last knob of that name decides, and `None` is an
/// unset knob or no knob of that name.
pub open spec fn knob_value(knobs: Seq<Seq<char>>, values: Seq<Option<Seq<char>>>, name: Seq<char>) -> Option<Seq<char>>
    decreases knobs.len(),
{
    if knobs.len() == 0 || values.len() == 0 {
        None
    } else if knobs.last() == name {
        values.last()
    } else {
        knob_value(knobs.drop_last(), values.drop_last(), name)
    }
}

/// The value a launch passes for the variable `name`, if it passes one:
/// `GN_SECS` always (the caller's, or 600), a knob when the caller has set
/// it to a non-empty value.
pub open spec fn passed_value(name: Seq<char>, secs: Option<Seq<char>>, values: Seq<Option<Seq<char>>>) -> Option<Seq<char>> {
    if name == "GN_SECS"@ {
        Some(match secs {
            Some(s) => s,
            None => DEFAULT_SECS@,
        })
    } else {
        match knob_value(knob_names(), values, name) {
            Some(v) => if v.len() > 0 {
                Some(v)
            } else {
                None
            },
            None => None,
        }
    }
}

/// The variables passed among the names in `order`, with their values, in
/// that order.
pub open spec fn passed_vars(order: Seq<Seq<char>>, secs: Option<Seq<char>>, values: Seq<Option<Seq<char>>>) -> Seq<(Seq<char>, Seq<char>)>
    decreases order.len(),
{
    if order.len() == 0 {
        Seq::empty()
    } else {
        let rest = passed_vars(order.drop_last(), secs, values);
        match passed_value(order.last(), secs, values) {
            Some(v) => rest.push((order.last(), v)),
            None => rest,
        }
    }
}

/// The environment passed to the launched app, ordered by name: `GN_SECS`
/// (the caller's, or 600) and every knob the caller has set to a non-empty
/// value.
pub open spec fn launch_env_of(secs: Option<Seq<char>>, values: Seq<Option<Seq<char>>>) -> Seq<(Seq<char>, Seq<char>)> {
    passed_vars(env_order_names(), secs, values)
}

/// Whether the names of `pairs` strictly ascend in the order of `str`.
pub open spec fn keys_ascending(pairs: Seq<(Seq<char>, Seq<char>)>) -> bool {
    forall|i: int, j: int| 0 <= i < j < pairs.len() ==> text_less(#[trigger] pairs[i].0, #[trigger] pairs[j].0)
}

/// Whether the texts of `names` strictly ascend in the order of `str`.
pub open spec fn names_ascending(names: Seq<Seq<char>>) -> bool {
    forall|i: int, j: int| 0 <= i < j < names.len() ==> text_less(#[trigger] names[i], #[trigger] names[j])
}

/// The text of an optional string.
pub open spec fn optional_string(v: Option<String>) -> Option<Seq<char>> {
    match v {
        Some(s) => Some(s@),
        None => None,
    }
}

/// The text of each optional string, in order.
pub open spec fn optional_strings(values: Seq<Option<String>>) -> Seq<Option<Seq<char>>> {
    values.map_values(|v: Option<String>| optional_string(v))
}

/// The text of each pair of strings, in order.
pub open spec fn string_pairs(pairs: Seq<(String, String)>) -> Seq<(Seq<char>, Seq<char>)> {
    pairs.map_values(|p: (String, String)| (p.0@, p.1@))
}

/// The names of [`KNOBS`], in order.
pub open spec fn knob_names() -> Seq<Seq<char>> {
    KNOBS@.map_values(|k: &str| k@)
}

/// The names of [`ENV_ORDER`], in order.
pub open spec fn env_order_names() -> Seq<Seq<char>> {
    ENV_ORDER@.map_values(|k: &str| k@)
}

/// The environment to launch the bundle with, given the caller's `GN_SECS`
/// and the caller's value of each of [`KNOBS`], in order: ordered by name,
/// the order in which the launch passes it.
pub fn launch_env(secs: Option<String>, knob_values: &Vec<Option<String>>) -> (env: Vec<(String, String)>)
    requires
        knob_values@.len() == KNOBS@.len(),
    ensures
        string_pairs(env@) == launch_env_of(optional_string(secs), optional_strings(knob_values@)),
        keys_ascending(string_pairs(env@)),
{
    let ghost knobs = knob_names();
    let ghost values = optional_strings(knob_values@);
    let ghost names = env_order_names();
    let ghost secs_text = optional_string(secs);
    let secs_value = match secs {
        Some(s) => s,
        None => String::from_str(DEFAULT_SECS),
    };
    let mut env: Vec<(String, String)> = Vec::new();
    let mut i: usize = 0;
    while i < 15
        invariant
            0 <= i <= 15,
            knob_values@.len() == 14,
            KNOBS@.len() == 14,
            ENV_ORDER@.len() == 15,
            knobs == knob_names(),
            values == optional_strings(knob_values@),
            names == env_order_names(),
            secs_value@ == match secs_text {
                Some(s) => s,
                None => DEFAULT_SECS@,
            },
            string_pairs(env@) == passed_vars(names.take(i as int), secs_text, values),
        decreases 15 - i,
    {
        let name = ENV_ORDER[i];
        assert(name@ == names[i as int]);
        assert(names.take(i + 1).drop_last() =~= names.take(i as int));
        assert(names.take(i + 1).last() == name@);
        let ghost before = env@;
        if str_eq(name, "GN_SECS") {
            env.push((String::from_str(name), secs_value.clone()));
            assert(string_pairs(env@) =~= string_pairs(before).push((name@, secs_value@)));
        } else {
            let found = knob_index(knob_values, name);
            match found {
                Some(f) => match &knob_values[f] {
                    Some(v) => {
                        if v.as_str().unicode_len() > 0 {
                            env.push((String::from_str(name), v.clone()));
                            assert(string_pairs(env@) =~= string_pairs(before).push((name@, v@)));
                        }
                    },
                    None => {},
                },
                None => {},
            }
        }
        i = i + 1;
    }
    assert(names.take(15) =~= names);
    proof {
        lemma_env_order_ascending();
        lemma_passed_vars_ascending(names, secs_text, values);
    }
    env
}

/// The position of the last of [`KNOBS`] called `name`, if any; what the
/// caller set it to is then the value at that position.
fn knob_index(knob_values: &Vec<Option<String>>, name: &str) -> (found: Option<usize>)
    requires
        knob_values@.len() == KNOBS@.len(),
    ensures
        match found {
            Some(f) => f < 14 && knob_value(knob_names(), optional_strings(knob_values@), name@)
                == optional_string(knob_values@[f as int]),
            None => knob_value(knob_names(), optional_strings(knob_values@), name@) is None,
        },
{
    let ghost knobs = knob_names();
    let ghost values = optional_strings(knob_values@);
    let mut found: Option<usize> = None;
    let mut j: usize = 0;
    while j < 14
        invariant
            0 <= j <= 14,
            knob_values@.len() == 14,
            KNOBS@.len() == 14,
            knobs == knob_names(),
            values == optional_strings(knob_values@),
            match found {
                Some(f) => f < j && knob_value(knobs.take(j as int), values.take(j as int), name@)
                    == values[f as int],
                None => knob_value(knobs.take(j as int), values.take(j as int), name@) is None,
            },
        decreases 14 - j,
    {
        assert(knobs.take(j + 1).drop_last() =~= knobs.take(j as int));
        assert(values.take(j + 1).drop_last() =~= values.take(j as int));
        assert(knobs[j as int] == KNOBS@[j as int]@);
        if str_eq(KNOBS[j], name) {
            found = Some(j);
        }
        j = j + 1;
    }
    assert(knobs.take(14) =~= knobs);
    assert(values.take(14) =~= values);
    found
}

/// The names of [`ENV_ORDER`] strictly ascend.
proof fn lemma_env_order_ascending()
    ensures
        names_ascending(env_order_names()),
{
    let names = env_order_names();
    reveal_strlit("GN_GLASS");
    reveal_strlit("GN_GTINT");
    reveal_strlit("GN_GT_D");
    reveal_strlit("GN_GT_L");
    reveal_strlit("GN_HSAT");
    reveal_strlit("GN_HUE");
    reveal_strlit("GN_ORIGIN");
    reveal_strlit("GN_PAPER_D");
    reveal_strlit("GN_PAPER_L");
    reveal_strlit("GN_POLL");
    reveal_strlit("GN_SECS");
    reveal_strlit("GN_SHADOW");
    reveal_strlit("GN_TBODY");
    reveal_strlit("GN_TINT");
    reveal_strlit("GN_TINT_SPACE");
    reveal_with_fuel(text_less, 11);
    assert forall|k: int| 0 <= k < 14 implies text_less(#[trigger] names[k], names[k + 1]) by {}
    lemma_adjacent_ascending(names);
}

/// [`ENV_ORDER`] names `GN_SECS` and each of [`KNOBS`].
proof fn lemma_env_order_covers_knobs()
    ensures
        env_order_names().contains("GN_SECS"@),
        forall|k: int| 0 <= k < knob_names().len() ==> env_order_names().contains(#[trigger] knob_names()[k]),
{
    let names = env_order_names();
    let knobs = knob_names();
    assert(names[10] == "GN_SECS"@);
    assert(knobs[0] == names[6]);
    assert(knobs[1] == names[0]);
    assert(knobs[2] == names[11]);
    assert(knobs[3] == names[14]);
    assert(knobs[4] == names[13]);
    assert(knobs[5] == names[8]);
    assert(knobs[6] == names[7]);
    assert(knobs[7] == names[1]);
    assert(knobs[8] == names[2]);
    assert(knobs[9] == names[3]);
    assert(knobs[10] == names[5]);
    assert(knobs[11] == names[4]);
    assert(knobs[12] == names[12]);
    assert(knobs[13] == names[9]);
}

/// A knob with a value is one of the knobs.
proof fn lemma_knob_value_names_a_knob(knobs: Seq<Seq<char>>, values: Seq<Option<Seq<char>>>, name: Seq<char>)
    requires
        knob_value(knobs, values, name) is Some,
    ensures
        knobs.contains(name),
    decreases knobs.len(),
{
    if knobs.last() == name {
        assert(knobs[knobs.len() - 1] == name);
    } else {
        lemma_knob_value_names_a_knob(knobs.drop_last(), values.drop_last(), name);
        let m = choose|m: int| 0 <= m < knobs.len() - 1 && knobs.drop_last()[m] == name;
        assert(knobs[m] == name);
    }
}

/// The variables passed among the names in `order` are exactly the pairs of
/// a name there and the value passed for it.
proof fn lemma_passed_vars_are_passed_values(order: Seq<Seq<char>>, secs: Option<Seq<char>>, values: Seq<Option<Seq<char>>>)
    ensures
        forall|name: Seq<char>, v: Seq<char>| #[trigger] passed_vars(order, secs, values).contains((name, v))
            <==> (order.contains(name) && passed_value(name, secs, values) == Some(v)),
    decreases order.len(),
{
    if order.len() > 0 {
        let prefix = order.drop_last();
        lemma_passed_vars_are_passed_values(prefix, secs, values);
        let rest = passed_vars(prefix, secs, values);
        let all = passed_vars(order, secs, values);
        assert forall|name: Seq<char>, v: Seq<char>| #[trigger] all.contains((name, v))
            <==> (order.contains(name) && passed_value(name, secs, values) == Some(v)) by {
            let last = order.last();
            assert(order[order.len() - 1] == last);
            assert(forall|m: int| 0 <= m < prefix.len() ==> prefix[m] == order[m]);
            if all.contains((name, v)) {
                let k = choose|k: int| 0 <= k < all.len() && all[k] == (name, v);
                if k < rest.len() {
                    assert(rest[k] == all[k]);
                    assert(rest.contains((name, v)));
                    let m = choose|m: int| 0 <= m < prefix.len() && prefix[m] == name;
                    assert(order[m] == name);
                } else {
                    assert(name == last);
                }
            }
            if order.contains(name) && passed_value(name, secs, values) == Some(v) {
                let m = choose|m: int| 0 <= m < order.len() && order[m] == name;
                if m < order.len() - 1 {
                    assert(prefix[m] == name);
                    assert(prefix.contains(name));
                    assert(rest.contains((name, v)));
                    let k = choose|k: int| 0 <= k < rest.len() && rest[k] == (name, v);
                    assert(all[k] == (name, v));
                } else {
                    assert(name == last);
                    assert(all == rest.push((last, v)));
                    assert(all[all.len() - 1] == (name, v));
                }
            }
        }
    }
}

/// A launch passes `GN_SECS` (the caller's, or 600) and each knob the
/// caller has set to a non-empty value, each with that value, and nothing
/// else, ordered by name so that no name comes twice.
pub proof fn law_launch_env_is_exact_and_sorted(secs: Option<Seq<char>>, values: Seq<Option<Seq<char>>>)
    requires
        values.len() == KNOBS@.len(),
    ensures
        keys_ascending(launch_env_of(secs, values)),
        forall|i: int, j: int| 0 <= i < j < launch_env_of(secs, values).len() ==> #[trigger] launch_env_of(
            secs,
            values,
        )[i].0 != #[trigger] launch_env_of(secs, values)[j].0,
        forall|name: Seq<char>, v: Seq<char>| #[trigger] launch_env_of(secs, values).contains((name, v))
            <==> passed_value(name, secs, values) == Some(v),
        launch_env_of(secs, values).contains(("GN_SECS"@, match secs {
            Some(s) => s,
            None => DEFAULT_SECS@,
        })),
{
    let names = env_order_names();
    lemma_env_order_ascending();
    lemma_passed_vars_ascending(names, secs, values);
    lemma_passed_vars_are_passed_values(names, secs, values);
    lemma_env_order_covers_knobs();
    let env = launch_env_of(secs, values);
    assert forall|i: int, j: int| 0 <= i < j < env.len() implies #[trigger] env[i].0 != #[trigger] env[j].0 by {
        lemma_text_less_irreflexive(env[i].0);
    }
    assert forall|name: Seq<char>, v: Seq<char>| passed_value(name, secs, values) == Some(v) implies names.contains(name) by {
        if name != "GN_SECS"@ {
            lemma_knob_value_names_a_knob(knob_names(), values, name);
            let k = choose|k: int| 0 <= k < knob_names().len() && knob_names()[k] == name;
            assert(names.contains(knob_names()[k]));
        }
    }
}

/// The knobs' names are distinct, and none is `GN_SECS`.
proof fn lemma_knob_names_distinct()
    ensures
        forall|k: int, l: int| 0 <= k < l < knob_names().len() ==> #[trigger] knob_names()[k] != #[trigger] knob_names()[l],
        forall|k: int| 0 <= k < knob_names().len() ==> #[trigger] knob_names()[k] != "GN_SECS"@,
{
    let names = env_order_names();
    let knobs = knob_names();
    lemma_env_order_ascending();
    lemma_env_order_covers_knobs();
    let place = seq![6int, 0, 11, 14, 13, 8, 7, 1, 2, 3, 5, 4, 12, 9];
    assert(names[10] == "GN_SECS"@);
    assert(forall|k: int| 0 <= k < 14 ==> 0 <= #[trigger] place[k] < 15 && place[k] != 10 && knobs[k] == names[place[k]]);
    assert forall|a: int, b: int| 0 <= a < 15 && 0 <= b < 15 && a != b implies #[trigger] names[a] != #[trigger] names[b] by {
        if a < b {
            assert(text_less(names[a], names[b]));
            lemma_text_less_irreflexive(names[a]);
        } else {
            assert(text_less(names[b], names[a]));
            lemma_text_less_irreflexive(names[b]);
        }
    }
    assert forall|k: int, l: int| 0 <= k < l < knobs.len() implies #[trigger] knobs[k] != #[trigger] knobs[l] by {
        assert(place[k] != place[l]);
        assert(names[place[k]] != names[place[l]]);
    }
    assert forall|k: int| 0 <= k < knobs.len() implies #[trigger] knobs[k] != "GN_SECS"@ by {
        assert(names[place[k]] != names[10]);
    }
}

/// Among distinct names, the value looked up for the `k`-th name is the
/// `k`-th value.
proof fn lemma_knob_value_at(knobs: Seq<Seq<char>>, values: Seq<Option<Seq<char>>>, k: int)
    requires
        knobs.len() == values.len(),
        0 <= k < knobs.len(),
        forall|a: int, b: int| 0 <= a < b < knobs.len() ==> #[trigger] knobs[a] != #[trigger] knobs[b],
    ensures
        knob_value(knobs, values, knobs[k]) == values[k],
    decreases knobs.len(),
{
    if k < knobs.len() - 1 {
        assert(knobs[k] != knobs[knobs.len() - 1]);
        let shorter = knobs.drop_last();
        assert(forall|a: int| 0 <= a < shorter.len() ==> shorter[a] == knobs[a]);
        lemma_knob_value_at(shorter, values.drop_last(), k);
        assert(values.drop_last()[k] == values[k]);
    }
}

/// Each knob the caller has set to a non-empty value is passed with exactly
/// that value, whatever the value is, and a knob that is unset or empty is
/// not passed at all.
pub proof fn law_set_knobs_are_forwarded_unchanged(
    secs: Option<Seq<char>>,
    values: Seq<Option<Seq<char>>>,
    k: int,
    v: Seq<char>,
)
    requires
        values.len() == KNOBS@.len(),
        0 <= k < KNOBS@.len(),
    ensures
        launch_env_of(secs, values).contains((knob_names()[k], v)) <==> (values[k] == Some(v) && v.len() > 0),
        (values[k] is None || values[k] == Some(Seq::<char>::empty())) ==> forall|w: Seq<char>| !launch_env_of(secs, values).contains(
            (knob_names()[k], w),
        ),
{
    law_launch_env_is_exact_and_sorted(secs, values);
    lemma_knob_names_distinct();
    lemma_knob_value_at(knob_names(), values, k);
}

/// Names that ascend from each to the next ascend throughout.
proof fn lemma_adjacent_ascending(names: Seq<Seq<char>>)
    requires
        forall|k: int| 0 <= k < names.len() - 1 ==> text_less(#[trigger] names[k], names[k + 1]),
    ensures
        names_ascending(names),
{
    assert forall|i: int, j: int| 0 <= i < j < names.len() implies text_less(#[trigger] names[i], #[trigger] names[j]) by {
        lemma_ascending_between(names, i, j);
    }
}

/// Under the premise of [`lemma_adjacent_ascending`], the name at `i` comes
/// before the one at any later `j`.
proof fn lemma_ascending_between(names: Seq<Seq<char>>, i: int, j: int)
    requires
        forall|k: int| 0 <= k < names.len() - 1 ==> text_less(#[trigger] names[k], names[k + 1]),
        0 <= i < j < names.len(),
    ensures
        text_less(names[i], names[j]),
    decreases j - i,
{
    if j > i + 1 {
        lemma_ascending_between(names, i, j - 1);
        lemma_text_less_transitive(names[i], names[j - 1], names[j]);
    }
}

/// The variables passed among ascending names ascend too, and each is one of
/// those names.
proof fn lemma_passed_vars_ascending(order: Seq<Seq<char>>, secs: Option<Seq<char>>, values: Seq<Option<Seq<char>>>)
    requires
        names_ascending(order),
    ensures
        keys_ascending(passed_vars(order, secs, values)),
        forall|k: int| 0 <= k < passed_vars(order, secs, values).len() ==> order.contains(
            #[trigger] passed_vars(order, secs, values)[k].0,
        ),
    decreases order.len(),
{
    if order.len() > 0 {
        let prefix = order.drop_last();
        assert(names_ascending(prefix));
        lemma_passed_vars_ascending(prefix, secs, values);
        let rest = passed_vars(prefix, secs, values);
        assert forall|k: int| 0 <= k < rest.len() implies text_less(#[trigger] rest[k].0, order.last()) by {
            let m = choose|m: int| 0 <= m < prefix.len() && prefix[m] == rest[k].0;
            assert(order[m] == prefix[m]);
            assert(text_less(order[m], order[order.len() - 1]));
        }
        let all = passed_vars(order, secs, values);
        assert forall|k: int| 0 <= k < all.len() implies order.contains(#[trigger] all[k].0) by {
            if k < rest.len() {
                let m = choose|m: int| 0 <= m < prefix.len() && prefix[m] == rest[k].0;
                assert(order[m] == prefix[m]);
            } else {
                assert(order[order.len() - 1] == order.last());
            }
        }
    }
}

} // verus!
