//! Default build strategy structures for Bitcoin.

use crate::error::{outcome_view, ShranError, ShranErrorView};
use crate::utils::text_map::TextMap;
use vstd::prelude::*;

verus! {

/// Hardcoded build option names from bitcoin's `configure.ac` file.
///
/// These index the map of build options, so that switching an option on or
/// off never depends on a string typed by hand.
#[derive(Debug)]
pub struct BuildOptionName;

impl BuildOptionName {
    pub const WALLET: &'static str = "wallet";

    pub const SQLITE: &'static str = "sqlite";

    pub const BDB: &'static str = "bdb";

    pub const EBPF: &'static str = "ebpf";

    pub const MINIUPNC: &'static str = "miniupnc";

    pub const UPNP_DEFAULT: &'static str = "upnp-default";

    pub const NATPMP: &'static str = "natpmp";

    pub const NATPMP_DEFAULT: &'static str = "natpmp-default";

    pub const TESTS: &'static str = "tests";

    pub const GUI_TESTS: &'static str = "gui-tests";

    pub const BENCH: &'static str = "bench";

    pub const EXTENDED_FUNCTIONAL_TESTS: &'static str = "extended-functional-tests";

    pub const FUZZ: &'static str = "fuzz";

    pub const FUZZ_BINARY: &'static str = "fuzz-binary";

    pub const QRENCODE: &'static str = "qrencode";

    pub const HARDENING: &'static str = "hardening";

    pub const REDUCE_EXPORTS: &'static str = "reduce-exports";

    pub const CCACHE: &'static str = "ccache";

    pub const SUPPRESS_EXTERNAL_WARNINGS: &'static str = "suppress-external-warnings";

    pub const LCOV: &'static str = "lcov";

    pub const LCOV_BRANCH_COVERAGE: &'static str = "lcov-branch-coverage";

    pub const GLIBC_BACK_COMPAT: &'static str = "glibc-back-compat";

    pub const THREADLOCAL: &'static str = "threadlocal";

    pub const ASM: &'static str = "asm";

    pub const SYSTEM_UNIVALUE: &'static str = "system-univalue";

    pub const ZMQ: &'static str = "zmq";

    pub const LIBMULTIPROCESS: &'static str = "libmultiprocess";

    pub const MPGEN: &'static str = "mpgen";

    pub const MULTIPROCESS: &'static str = "multiprocess";

    pub const MAN: &'static str = "man";

    pub const DEBUG: &'static str = "debug";

    pub const SANITIZERS: &'static str = "sanitizers";

    pub const GPROF: &'static str = "gprof";

    pub const WERROR: &'static str = "werror";

    pub const EXTERNAL_SIGNER: &'static str = "external-signer";
}

/// Bitcoin controls compile flags with these three values.
///
/// * `Yes`  use the associated build option
/// * `No`   do not use the associated build option
/// * `Auto` bitcoin's build system figures it out; this is a state of its
///   own, never a shorthand for one of the other two
#[derive(Debug, Copy, Clone, PartialEq, Eq, Structural)]
pub enum OptionEnabled {
    Yes,
    No,
    Auto,
}

/// A build option with its texts taken as character sequences.
pub struct BuildOptionView {
    pub flag: Seq<char>,
    pub enabled: OptionEnabled,
    pub desc: Seq<char>,
}

/// One bitcoin build option.
///
/// * `flag` the command line parameter passed to the configure script
/// * `enabled` whether the option is on, off, or left to the build system
/// * `desc` description of the command line parameter
#[derive(Debug, Copy, Clone)]
pub struct BuildOption<'f> {
    flag: &'f str,
    enabled: OptionEnabled,
    desc: &'f str,
}

impl<'f> View for BuildOption<'f> {
    type V = BuildOptionView;

    closed spec fn view(&self) -> BuildOptionView {
        BuildOptionView { flag: self.flag@, enabled: self.enabled, desc: self.desc@ }
    }
}

impl<'f> BuildOption<'f> {
    pub fn new(flag: &'f str, enabled: OptionEnabled, desc: &'f str) -> (option: Self)
        ensures
            option@ == (BuildOptionView { flag: flag@, enabled: enabled, desc: desc@ }),
    {
        Self { flag, enabled, desc }
    }

    pub fn flag(&self) -> (flag: &'f str)
        ensures
            flag@ == self@.flag,
    {
        self.flag
    }

    pub fn enabled(&self) -> (enabled: &OptionEnabled)
        ensures
            *enabled == self@.enabled,
    {
        &self.enabled
    }

    pub fn update_enabled(&mut self, option: OptionEnabled)
        ensures
            final(self)@ == (BuildOptionView { enabled: option, ..old(self)@ }),
    {
        self.enabled = option;
    }

    pub fn description(&self) -> (desc: &'f str)
        ensures
            desc@ == self@.desc,
    {
        self.desc
    }
}

/// All build options by name.
pub type BuildOptions<'f> = TextMap<BuildOption<'f>>;

/// The options of a map, each taken by its view.
pub open spec fn option_views<'f>(options: Map<Seq<char>, BuildOption<'f>>) -> Map<
    Seq<char>,
    BuildOptionView,
> {
    options.map_values(|option: BuildOption<'f>| option@)
}

/// The option with the given flag, state and description.
pub open spec fn option_of(flag: Seq<char>, enabled: OptionEnabled, desc: Seq<char>)
    -> BuildOptionView {
    BuildOptionView { flag, enabled, desc }
}

/// The catalog of build options with the defaults that bitcoin's
/// `configure.ac` documents.
pub open spec fn default_build_options() -> Map<Seq<char>, BuildOptionView> {
    Map::<Seq<char>, BuildOptionView>::empty()
    .insert(
        BuildOptionName::WALLET@,
        option_of("--disable-wallet"@, OptionEnabled::Yes, "disable wallet (enabled by default)"@),
    )
    .insert(
        BuildOptionName::SQLITE@,
        option_of("--with-sqlite"@, OptionEnabled::Auto, "enable sqlite wallet support (default: auto, i.e., enabled if wallet is enabled and sqlite is found)"@),
    )
    .insert(
        BuildOptionName::BDB@,
        option_of("--without-bdb"@, OptionEnabled::Auto, "disable bdb wallet support (default is enabled if wallet is enabled)"@),
    )
    .insert(
        BuildOptionName::EBPF@,
        option_of("--enable-ebpf"@, OptionEnabled::Yes, "enable eBPF tracing (default is yes if sys/sdt.h is found)"@),
    )
    .insert(
        BuildOptionName::MINIUPNC@,
        option_of("--with-miniupnpc"@, OptionEnabled::Auto, "enable UPNP (default is yes if libminiupnpc is found)"@),
    )
    .insert(
        BuildOptionName::UPNP_DEFAULT@,
        option_of("--enable-upnp-default"@, OptionEnabled::No, "if UPNP is enabled, turn it on at startup (default is no)"@),
    )
    .insert(
        BuildOptionName::NATPMP@,
        option_of("--with-natpmp"@, OptionEnabled::Auto, "enable NAT-PMP (default is yes if libnatpmp is found)"@),
    )
    .insert(
        BuildOptionName::NATPMP_DEFAULT@,
        option_of("--enable-natpmp-default"@, OptionEnabled::No, "if NAT-PMP is enabled, turn it on at startup (default is no)"@),
    )
    .insert(
        BuildOptionName::TESTS@,
        option_of("--disable-tests"@, OptionEnabled::Yes, "do not compile tests (default is yes)"@),
    )
    .insert(
        BuildOptionName::GUI_TESTS@,
        option_of("--disable-gui-tests"@, OptionEnabled::No, "do not compile GUI tests (default is to compile if GUI and tests enabled)"@),
    )
    .insert(
        BuildOptionName::BENCH@,
        option_of("--disable-bench"@, OptionEnabled::No, "do not compile benchmarks (default is to compile)"@),
    )
    .insert(
        BuildOptionName::EXTENDED_FUNCTIONAL_TESTS@,
        option_of("--enable-extended-functional-tests"@, OptionEnabled::No, "enable expensive functional tests when using lcov (default no)"@),
    )
    .insert(
        BuildOptionName::FUZZ@,
        option_of("--enable-fuzz"@, OptionEnabled::No, "build for fuzzing (default no). enabling this will disable all other targets and override --{enable,disable}-fuzz-binary"@),
    )
    .insert(
        BuildOptionName::FUZZ_BINARY@,
        option_of("--enable-fuzz-binary"@, OptionEnabled::Yes, "enable building of fuzz binary (default yes)."@),
    )
    .insert(
        BuildOptionName::QRENCODE@,
        option_of("--with-qrencode"@, OptionEnabled::Auto, "enable QR code support (default is yes if qt is enabled and libqrencode is found)"@),
    )
    .insert(
        BuildOptionName::HARDENING@,
        option_of("--disable-hardening"@, OptionEnabled::Auto, "do not attempt to harden the resulting executables (default is to harden when possible)"@),
    )
    .insert(
        BuildOptionName::REDUCE_EXPORTS@,
        option_of("--enable-reduce-exports"@, OptionEnabled::No, "attempt to reduce exported symbols in the resulting executables (default is no)"@),
    )
    .insert(
        BuildOptionName::CCACHE@,
        option_of("--disable-ccache"@, OptionEnabled::Auto, "do not use ccache for building (default is to use if found)"@),
    )
    .insert(
        BuildOptionName::SUPPRESS_EXTERNAL_WARNINGS@,
        option_of("--enable-suppress-external-warnings"@, OptionEnabled::No, "Suppress warnings from external headers (default is no)"@),
    )
    .insert(
        BuildOptionName::LCOV@,
        option_of("--enable-lcov"@, OptionEnabled::No, "enable lcov testing (default is no)"@),
    )
    .insert(
        BuildOptionName::LCOV_BRANCH_COVERAGE@,
        option_of("--enable-lcov-branch-coverage"@, OptionEnabled::No, "enable lcov testing branch coverage (default is no)"@),
    )
    .insert(
        BuildOptionName::GLIBC_BACK_COMPAT@,
        option_of("--enable-glibc-back-compat"@, OptionEnabled::No, "enable backwards compatibility with glibc (default is no)"@),
    )
    .insert(
        BuildOptionName::THREADLOCAL@,
        option_of("--enable-threadlocal"@, OptionEnabled::Auto, "enable features that depend on the c++ thread_local keyword (currently just thread names in debug logs). (default is to enabled if there is platform support and glibc-back-compat is not enabled (default is auto)"@),
    )
    .insert(
        BuildOptionName::ASM@,
        option_of("--disable-asm"@, OptionEnabled::Yes, "disable assembly routines (default is yes)"@),
    )
    .insert(
        BuildOptionName::SYSTEM_UNIVALUE@,
        option_of("--with-system-univalue"@, OptionEnabled::No, "Build with system UniValue (default is no)"@),
    )
    .insert(
        BuildOptionName::ZMQ@,
        option_of("--disable-zmq"@, OptionEnabled::Yes, "disable ZMQ notifications (default is yes)"@),
    )
    .insert(
        BuildOptionName::LIBMULTIPROCESS@,
        option_of("--with-libmultiprocess"@, OptionEnabled::Auto, "Build with libmultiprocess library. (default: auto, i.e. detect with pkg-config)"@),
    )
    .insert(
        BuildOptionName::MPGEN@,
        option_of("--with-mpgen"@, OptionEnabled::Auto, "Build with libmultiprocess codegen tool. Useful to specify different libmultiprocess host system library and build system codegen tool prefixes when cross-compiling (default is auto e.g. host system libmultiprocess prefix)"@),
    )
    .insert(
        BuildOptionName::MULTIPROCESS@,
        option_of("--enable-multiprocess"@, OptionEnabled::No, "build multiprocess bitcoin-node, bitcoin-wallet, and bitcoin-gui executables in addition to monolithic bitcoind and bitcoin-qt executables. Requires libmultiprocess library. Experimental (default is no)"@),
    )
    .insert(
        BuildOptionName::MAN@,
        option_of("--disable-man"@, OptionEnabled::No, "do not install man pages (default is to install)"@),
    )
    .insert(
        BuildOptionName::DEBUG@,
        option_of("--enable-debug"@, OptionEnabled::No, "use compiler flags and macros suited for debugging (default is no)"@),
    )
    .insert(
        BuildOptionName::SANITIZERS@,
        option_of("--with-sanitizers"@, OptionEnabled::No, "comma separated list of extra sanitizers to build with (default is no)"@),
    )
    .insert(
        BuildOptionName::GPROF@,
        option_of("--enable-gprof"@, OptionEnabled::No, "use gprof profiling compiler flags (default is no)"@),
    )
    .insert(
        BuildOptionName::WERROR@,
        option_of("--enable-werror"@, OptionEnabled::No, "Treat certain compiler warnings as errors (default is no)"@),
    )
    .insert(
        BuildOptionName::EXTERNAL_SIGNER@,
        option_of("--enable-external-signer"@, OptionEnabled::Yes, "compile external signer support (default is yes, requires Boost::Process)"@),
    )
}

/// The names of the catalog.
pub open spec fn option_names() -> Set<Seq<char>> {
    set![
        BuildOptionName::WALLET@,
        BuildOptionName::SQLITE@,
        BuildOptionName::BDB@,
        BuildOptionName::EBPF@,
        BuildOptionName::MINIUPNC@,
        BuildOptionName::UPNP_DEFAULT@,
        BuildOptionName::NATPMP@,
        BuildOptionName::NATPMP_DEFAULT@,
        BuildOptionName::TESTS@,
        BuildOptionName::GUI_TESTS@,
        BuildOptionName::BENCH@,
        BuildOptionName::EXTENDED_FUNCTIONAL_TESTS@,
        BuildOptionName::FUZZ@,
        BuildOptionName::FUZZ_BINARY@,
        BuildOptionName::QRENCODE@,
        BuildOptionName::HARDENING@,
        BuildOptionName::REDUCE_EXPORTS@,
        BuildOptionName::CCACHE@,
        BuildOptionName::SUPPRESS_EXTERNAL_WARNINGS@,
        BuildOptionName::LCOV@,
        BuildOptionName::LCOV_BRANCH_COVERAGE@,
        BuildOptionName::GLIBC_BACK_COMPAT@,
        BuildOptionName::THREADLOCAL@,
        BuildOptionName::ASM@,
        BuildOptionName::SYSTEM_UNIVALUE@,
        BuildOptionName::ZMQ@,
        BuildOptionName::LIBMULTIPROCESS@,
        BuildOptionName::MPGEN@,
        BuildOptionName::MULTIPROCESS@,
        BuildOptionName::MAN@,
        BuildOptionName::DEBUG@,
        BuildOptionName::SANITIZERS@,
        BuildOptionName::GPROF@,
        BuildOptionName::WERROR@,
        BuildOptionName::EXTERNAL_SIGNER@,
    ]
}

/// The catalog holds an option for each name of [`option_names`] and for
/// nothing else, and the names are 35 different texts.
pub proof fn lemma_catalog_names()
    ensures
        default_build_options().dom() == option_names(),
        option_names().finite(),
        option_names().len() == 35,
{
    reveal_strlit("wallet");
    reveal_strlit("sqlite");
    reveal_strlit("bdb");
    reveal_strlit("ebpf");
    reveal_strlit("miniupnc");
    reveal_strlit("upnp-default");
    reveal_strlit("natpmp");
    reveal_strlit("natpmp-default");
    reveal_strlit("tests");
    reveal_strlit("gui-tests");
    reveal_strlit("bench");
    reveal_strlit("extended-functional-tests");
    reveal_strlit("fuzz");
    reveal_strlit("fuzz-binary");
    reveal_strlit("qrencode");
    reveal_strlit("hardening");
    reveal_strlit("reduce-exports");
    reveal_strlit("ccache");
    reveal_strlit("suppress-external-warnings");
    reveal_strlit("lcov");
    reveal_strlit("lcov-branch-coverage");
    reveal_strlit("glibc-back-compat");
    reveal_strlit("threadlocal");
    reveal_strlit("asm");
    reveal_strlit("system-univalue");
    reveal_strlit("zmq");
    reveal_strlit("libmultiprocess");
    reveal_strlit("mpgen");
    reveal_strlit("multiprocess");
    reveal_strlit("man");
    reveal_strlit("debug");
    reveal_strlit("sanitizers");
    reveal_strlit("gprof");
    reveal_strlit("werror");
    reveal_strlit("external-signer");
    assert(BuildOptionName::WALLET@.len() == 6);
    assert(BuildOptionName::SQLITE@.len() == 6);
    assert(BuildOptionName::BDB@.len() == 3);
    assert(BuildOptionName::EBPF@.len() == 4);
    assert(BuildOptionName::MINIUPNC@.len() == 8);
    assert(BuildOptionName::UPNP_DEFAULT@.len() == 12);
    assert(BuildOptionName::NATPMP@.len() == 6);
    assert(BuildOptionName::NATPMP_DEFAULT@.len() == 14);
    assert(BuildOptionName::TESTS@.len() == 5);
    assert(BuildOptionName::GUI_TESTS@.len() == 9);
    assert(BuildOptionName::BENCH@.len() == 5);
    assert(BuildOptionName::EXTENDED_FUNCTIONAL_TESTS@.len() == 25);
    assert(BuildOptionName::FUZZ@.len() == 4);
    assert(BuildOptionName::FUZZ_BINARY@.len() == 11);
    assert(BuildOptionName::QRENCODE@.len() == 8);
    assert(BuildOptionName::HARDENING@.len() == 9);
    assert(BuildOptionName::REDUCE_EXPORTS@.len() == 14);
    assert(BuildOptionName::CCACHE@.len() == 6);
    assert(BuildOptionName::SUPPRESS_EXTERNAL_WARNINGS@.len() == 26);
    assert(BuildOptionName::LCOV@.len() == 4);
    assert(BuildOptionName::LCOV_BRANCH_COVERAGE@.len() == 20);
    assert(BuildOptionName::GLIBC_BACK_COMPAT@.len() == 17);
    assert(BuildOptionName::THREADLOCAL@.len() == 11);
    assert(BuildOptionName::ASM@.len() == 3);
    assert(BuildOptionName::SYSTEM_UNIVALUE@.len() == 15);
    assert(BuildOptionName::ZMQ@.len() == 3);
    assert(BuildOptionName::LIBMULTIPROCESS@.len() == 15);
    assert(BuildOptionName::MPGEN@.len() == 5);
    assert(BuildOptionName::MULTIPROCESS@.len() == 12);
    assert(BuildOptionName::MAN@.len() == 3);
    assert(BuildOptionName::DEBUG@.len() == 5);
    assert(BuildOptionName::SANITIZERS@.len() == 10);
    assert(BuildOptionName::GPROF@.len() == 5);
    assert(BuildOptionName::WERROR@.len() == 6);
    assert(BuildOptionName::EXTERNAL_SIGNER@.len() == 15);
    // names of one length differ at the position given
    assert(BuildOptionName::WALLET@[0] != BuildOptionName::SQLITE@[0]);
    assert(BuildOptionName::WALLET@[0] != BuildOptionName::NATPMP@[0]);
    assert(BuildOptionName::SQLITE@[0] != BuildOptionName::NATPMP@[0]);
    assert(BuildOptionName::TESTS@[0] != BuildOptionName::BENCH@[0]);
    assert(BuildOptionName::EBPF@[0] != BuildOptionName::FUZZ@[0]);
    assert(BuildOptionName::MINIUPNC@[0] != BuildOptionName::QRENCODE@[0]);
    assert(BuildOptionName::GUI_TESTS@[0] != BuildOptionName::HARDENING@[0]);
    assert(BuildOptionName::NATPMP_DEFAULT@[0] != BuildOptionName::REDUCE_EXPORTS@[0]);
    assert(BuildOptionName::WALLET@[0] != BuildOptionName::CCACHE@[0]);
    assert(BuildOptionName::SQLITE@[0] != BuildOptionName::CCACHE@[0]);
    assert(BuildOptionName::NATPMP@[0] != BuildOptionName::CCACHE@[0]);
    assert(BuildOptionName::EBPF@[0] != BuildOptionName::LCOV@[0]);
    assert(BuildOptionName::FUZZ@[0] != BuildOptionName::LCOV@[0]);
    assert(BuildOptionName::FUZZ_BINARY@[0] != BuildOptionName::THREADLOCAL@[0]);
    assert(BuildOptionName::BDB@[0] != BuildOptionName::ASM@[0]);
    assert(BuildOptionName::BDB@[0] != BuildOptionName::ZMQ@[0]);
    assert(BuildOptionName::ASM@[0] != BuildOptionName::ZMQ@[0]);
    assert(BuildOptionName::SYSTEM_UNIVALUE@[0] != BuildOptionName::LIBMULTIPROCESS@[0]);
    assert(BuildOptionName::TESTS@[0] != BuildOptionName::MPGEN@[0]);
    assert(BuildOptionName::BENCH@[0] != BuildOptionName::MPGEN@[0]);
    assert(BuildOptionName::UPNP_DEFAULT@[0] != BuildOptionName::MULTIPROCESS@[0]);
    assert(BuildOptionName::BDB@[0] != BuildOptionName::MAN@[0]);
    assert(BuildOptionName::ASM@[0] != BuildOptionName::MAN@[0]);
    assert(BuildOptionName::ZMQ@[0] != BuildOptionName::MAN@[0]);
    assert(BuildOptionName::TESTS@[0] != BuildOptionName::DEBUG@[0]);
    assert(BuildOptionName::BENCH@[0] != BuildOptionName::DEBUG@[0]);
    assert(BuildOptionName::MPGEN@[0] != BuildOptionName::DEBUG@[0]);
    assert(BuildOptionName::TESTS@[0] != BuildOptionName::GPROF@[0]);
    assert(BuildOptionName::BENCH@[0] != BuildOptionName::GPROF@[0]);
    assert(BuildOptionName::MPGEN@[0] != BuildOptionName::GPROF@[0]);
    assert(BuildOptionName::DEBUG@[0] != BuildOptionName::GPROF@[0]);
    assert(BuildOptionName::WALLET@[1] != BuildOptionName::WERROR@[1]);
    assert(BuildOptionName::SQLITE@[0] != BuildOptionName::WERROR@[0]);
    assert(BuildOptionName::NATPMP@[0] != BuildOptionName::WERROR@[0]);
    assert(BuildOptionName::CCACHE@[0] != BuildOptionName::WERROR@[0]);
    assert(BuildOptionName::SYSTEM_UNIVALUE@[0] != BuildOptionName::EXTERNAL_SIGNER@[0]);
    assert(BuildOptionName::LIBMULTIPROCESS@[0] != BuildOptionName::EXTERNAL_SIGNER@[0]);
    assert(default_build_options().dom() =~= option_names());
}

/// Whether the option called `name` can be updated: yes, unless the catalog
/// has no option of that name, which is an `UnrecognizedOptionError`.
pub open spec fn update_outcome(options: Map<Seq<char>, BuildOptionView>, name: Seq<char>)
    -> Result<(), ShranErrorView> {
    if options.contains_key(name) {
        Ok(())
    } else {
        Err(ShranErrorView::UnrecognizedOptionError { name })
    }
}

/// The catalog after an attempt to set the state of the option called `name`:
/// that option has the new state and keeps its flag and description, or, where
/// there is no such option, the catalog is as it was.
pub open spec fn after_update(
    options: Map<Seq<char>, BuildOptionView>,
    name: Seq<char>,
    enabled: OptionEnabled,
) -> Map<Seq<char>, BuildOptionView> {
    if options.contains_key(name) {
        options.insert(name, BuildOptionView { enabled: enabled, ..options[name] })
    } else {
        options
    }
}

/// An update of an option of the catalog sets the state of that option and
/// changes nothing else: not its flag, not its description, no other option,
/// and not the names of the catalog.
pub proof fn lemma_update_changes_only_state(
    options: Map<Seq<char>, BuildOptionView>,
    name: Seq<char>,
    enabled: OptionEnabled,
)
    requires
        options.contains_key(name),
    ensures
        update_outcome(options, name) == Ok::<(), ShranErrorView>(()),
        after_update(options, name, enabled).dom() == options.dom(),
        after_update(options, name, enabled)[name].enabled == enabled,
        after_update(options, name, enabled)[name].flag == options[name].flag,
        after_update(options, name, enabled)[name].desc == options[name].desc,
        forall|other: Seq<char>|
            other != name && options.contains_key(other) ==> #[trigger] after_update(
                options,
                name,
                enabled,
            )[other] == options[other],
{
    assert(after_update(options, name, enabled).dom() =~= options.dom());
}

/// An update under a name that the catalog does not have fails with
/// `UnrecognizedOptionError` and leaves the catalog as it was.
pub proof fn lemma_update_refuses_unknown_name(
    options: Map<Seq<char>, BuildOptionView>,
    name: Seq<char>,
    enabled: OptionEnabled,
)
    requires
        !options.contains_key(name),
    ensures
        update_outcome(options, name) == Err::<(), ShranErrorView>(
            ShranErrorView::UnrecognizedOptionError { name },
        ),
        after_update(options, name, enabled) == options,
{
}

/// No update adds a name to the catalog or takes one away.
pub proof fn lemma_update_keeps_names(
    options: Map<Seq<char>, BuildOptionView>,
    name: Seq<char>,
    enabled: OptionEnabled,
)
    ensures
        after_update(options, name, enabled).dom() == options.dom(),
{
    assert(after_update(options, name, enabled).dom() =~= options.dom());
}

/// What a lookup by name gives.
pub open spec fn looked_up_option(options: Map<Seq<char>, BuildOptionView>, name: Seq<char>)
    -> Result<BuildOptionView, ShranErrorView> {
    if options.contains_key(name) {
        Ok(options[name])
    } else {
        Err(ShranErrorView::UnrecognizedOptionError { name })
    }
}

/// A build strategy is a composition of all the possible build options.
///
/// A new strategy holds the documented defaults; options change state only
/// through [`BuildStrategy::update_build_option`], and none is ever added or
/// removed.
#[derive(Debug)]
pub struct BuildStrategy<'f> {
    build_options: BuildOptions<'f>,
}

impl<'f> View for BuildStrategy<'f> {
    type V = Map<Seq<char>, BuildOptionView>;

    closed spec fn view(&self) -> Map<Seq<char>, BuildOptionView> {
        option_views(self.build_options@)
    }
}

impl<'f> BuildStrategy<'f> {
    /// Stores one option under its name, for `new`.
    fn put(&mut self, name: &str, flag: &'f str, enabled: OptionEnabled, desc: &'f str)
        ensures
            final(self)@ == old(self)@.insert(name@, option_of(flag@, enabled, desc@)),
    {
        let option = BuildOption::new(flag, enabled, desc);
        let _ = self.build_options.insert(name.to_owned(), option);
        assert(option_views(old(self).build_options@.insert(name@, option)) =~= option_views(
            old(self).build_options@,
        ).insert(name@, option@));
    }

    /// Builds a bitcoin node to default spec, a direct one to one rendering of
    /// the options of bitcoin's `configure.ac`.
    pub fn new() -> (strategy: Self)
        ensures
            strategy@ == default_build_options(),
    {
        let mut strategy = BuildStrategy { build_options: TextMap::new() };
        assert(strategy@ =~= Map::<Seq<char>, BuildOptionView>::empty());
        strategy.put(
            BuildOptionName::WALLET,
            "--disable-wallet",
            OptionEnabled::Yes,
            "disable wallet (enabled by default)",
        );
        strategy.put(
            BuildOptionName::SQLITE,
            "--with-sqlite",
            OptionEnabled::Auto,
            "enable sqlite wallet support (default: auto, i.e., enabled if wallet is enabled and sqlite is found)",
        );
        strategy.put(
            BuildOptionName::BDB,
            "--without-bdb",
            OptionEnabled::Auto,
            "disable bdb wallet support (default is enabled if wallet is enabled)",
        );
        strategy.put(
            BuildOptionName::EBPF,
            "--enable-ebpf",
            OptionEnabled::Yes,
            "enable eBPF tracing (default is yes if sys/sdt.h is found)",
        );
        strategy.put(
            BuildOptionName::MINIUPNC,
            "--with-miniupnpc",
            OptionEnabled::Auto,
            "enable UPNP (default is yes if libminiupnpc is found)",
        );
        strategy.put(
            BuildOptionName::UPNP_DEFAULT,
            "--enable-upnp-default",
            OptionEnabled::No,
            "if UPNP is enabled, turn it on at startup (default is no)",
        );
        strategy.put(
            BuildOptionName::NATPMP,
            "--with-natpmp",
            OptionEnabled::Auto,
            "enable NAT-PMP (default is yes if libnatpmp is found)",
        );
        strategy.put(
            BuildOptionName::NATPMP_DEFAULT,
            "--enable-natpmp-default",
            OptionEnabled::No,
            "if NAT-PMP is enabled, turn it on at startup (default is no)",
        );
        strategy.put(
            BuildOptionName::TESTS,
            "--disable-tests",
            OptionEnabled::Yes,
            "do not compile tests (default is yes)",
        );
        strategy.put(
            BuildOptionName::GUI_TESTS,
            "--disable-gui-tests",
            OptionEnabled::No,
            "do not compile GUI tests (default is to compile if GUI and tests enabled)",
        );
        strategy.put(
            BuildOptionName::BENCH,
            "--disable-bench",
            OptionEnabled::No,
            "do not compile benchmarks (default is to compile)",
        );
        strategy.put(
            BuildOptionName::EXTENDED_FUNCTIONAL_TESTS,
            "--enable-extended-functional-tests",
            OptionEnabled::No,
            "enable expensive functional tests when using lcov (default no)",
        );
        strategy.put(
            BuildOptionName::FUZZ,
            "--enable-fuzz",
            OptionEnabled::No,
            "build for fuzzing (default no). enabling this will disable all other targets and override --{enable,disable}-fuzz-binary",
        );
        strategy.put(
            BuildOptionName::FUZZ_BINARY,
            "--enable-fuzz-binary",
            OptionEnabled::Yes,
            "enable building of fuzz binary (default yes).",
        );
        strategy.put(
            BuildOptionName::QRENCODE,
            "--with-qrencode",
            OptionEnabled::Auto,
            "enable QR code support (default is yes if qt is enabled and libqrencode is found)",
        );
        strategy.put(
            BuildOptionName::HARDENING,
            "--disable-hardening",
            OptionEnabled::Auto,
            "do not attempt to harden the resulting executables (default is to harden when possible)",
        );
        strategy.put(
            BuildOptionName::REDUCE_EXPORTS,
            "--enable-reduce-exports",
            OptionEnabled::No,
            "attempt to reduce exported symbols in the resulting executables (default is no)",
        );
        strategy.put(
            BuildOptionName::CCACHE,
            "--disable-ccache",
            OptionEnabled::Auto,
            "do not use ccache for building (default is to use if found)",
        );
        strategy.put(
            BuildOptionName::SUPPRESS_EXTERNAL_WARNINGS,
            "--enable-suppress-external-warnings",
            OptionEnabled::No,
            "Suppress warnings from external headers (default is no)",
        );
        strategy.put(
            BuildOptionName::LCOV,
            "--enable-lcov",
            OptionEnabled::No,
            "enable lcov testing (default is no)",
        );
        strategy.put(
            BuildOptionName::LCOV_BRANCH_COVERAGE,
            "--enable-lcov-branch-coverage",
            OptionEnabled::No,
            "enable lcov testing branch coverage (default is no)",
        );
        strategy.put(
            BuildOptionName::GLIBC_BACK_COMPAT,
            "--enable-glibc-back-compat",
            OptionEnabled::No,
            "enable backwards compatibility with glibc (default is no)",
        );
        strategy.put(
            BuildOptionName::THREADLOCAL,
            "--enable-threadlocal",
            OptionEnabled::Auto,
            "enable features that depend on the c++ thread_local keyword (currently just thread names in debug logs). (default is to enabled if there is platform support and glibc-back-compat is not enabled (default is auto)",
        );
        strategy.put(
            BuildOptionName::ASM,
            "--disable-asm",
            OptionEnabled::Yes,
            "disable assembly routines (default is yes)",
        );
        strategy.put(
            BuildOptionName::SYSTEM_UNIVALUE,
            "--with-system-univalue",
            OptionEnabled::No,
            "Build with system UniValue (default is no)",
        );
        strategy.put(
            BuildOptionName::ZMQ,
            "--disable-zmq",
            OptionEnabled::Yes,
            "disable ZMQ notifications (default is yes)",
        );
        strategy.put(
            BuildOptionName::LIBMULTIPROCESS,
            "--with-libmultiprocess",
            OptionEnabled::Auto,
            "Build with libmultiprocess library. (default: auto, i.e. detect with pkg-config)",
        );
        strategy.put(
            BuildOptionName::MPGEN,
            "--with-mpgen",
            OptionEnabled::Auto,
            "Build with libmultiprocess codegen tool. Useful to specify different libmultiprocess host system library and build system codegen tool prefixes when cross-compiling (default is auto e.g. host system libmultiprocess prefix)",
        );
        strategy.put(
            BuildOptionName::MULTIPROCESS,
            "--enable-multiprocess",
            OptionEnabled::No,
            "build multiprocess bitcoin-node, bitcoin-wallet, and bitcoin-gui executables in addition to monolithic bitcoind and bitcoin-qt executables. Requires libmultiprocess library. Experimental (default is no)",
        );
        strategy.put(
            BuildOptionName::MAN,
            "--disable-man",
            OptionEnabled::No,
            "do not install man pages (default is to install)",
        );
        strategy.put(
            BuildOptionName::DEBUG,
            "--enable-debug",
            OptionEnabled::No,
            "use compiler flags and macros suited for debugging (default is no)",
        );
        strategy.put(
            BuildOptionName::SANITIZERS,
            "--with-sanitizers",
            OptionEnabled::No,
            "comma separated list of extra sanitizers to build with (default is no)",
        );
        strategy.put(
            BuildOptionName::GPROF,
            "--enable-gprof",
            OptionEnabled::No,
            "use gprof profiling compiler flags (default is no)",
        );
        strategy.put(
            BuildOptionName::WERROR,
            "--enable-werror",
            OptionEnabled::No,
            "Treat certain compiler warnings as errors (default is no)",
        );
        strategy.put(
            BuildOptionName::EXTERNAL_SIGNER,
            "--enable-external-signer",
            OptionEnabled::Yes,
            "compile external signer support (default is yes, requires Boost::Process)",
        );
        strategy
    }

    /// Getter for the map of build options.
    pub fn build_options(&self) -> (options: &BuildOptions<'f>)
        ensures
            option_views(options@) == self@,
    {
        &self.build_options
    }

    /// The option called `name`, or `UnrecognizedOptionError` where the
    /// catalog has none of that name.
    pub fn build_option(&self, name: &str) -> (result: Result<BuildOption<'f>, ShranError>)
        ensures
            outcome_view(result) == looked_up_option(self@, name@),
    {
        match self.build_options.get(name) {
            Some(option) => Ok(*option),
            None => Err(ShranError::UnrecognizedOptionError { name: name.to_owned() }),
        }
    }

    /// Sets the state of the option called `build_option_name`.
    ///
    /// Fails with `UnrecognizedOptionError`, and changes nothing, where the
    /// catalog has no option of that name. The flag and the description of an
    /// option never change.
    pub fn update_build_option(
        &mut self,
        build_option_name: &str,
        enable_option: OptionEnabled,
    ) -> (result: Result<(), ShranError>)
        ensures
            outcome_view(result) == update_outcome(old(self)@, build_option_name@),
            final(self)@ == after_update(old(self)@, build_option_name@, enable_option),
            result is Err ==> *final(self) == *old(self),
    {
        match self.build_options.get(build_option_name) {
            Some(current) => {
                let mut option = *current;
                option.update_enabled(enable_option);
                let _ = self.build_options.insert(build_option_name.to_owned(), option);
                assert(option_views(old(self).build_options@.insert(build_option_name@, option))
                    =~= option_views(old(self).build_options@).insert(build_option_name@, option@));
                Ok(())
            },
            None => Err(ShranError::UnrecognizedOptionError { name: build_option_name.to_owned() }),
        }
    }
}

} // verus!
