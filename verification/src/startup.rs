//! Starting the native engine: where its parts lie, and what it is told.

use vstd::prelude::*;
use vstd::string::*;

use crate::engine::{Engine, EngineV};
use crate::events;
use crate::presenter::Platform;
use crate::text;

verus! {

/// Where the native engine's parts lie, each as path components below the module's directory. A
/// part that the system does not have is `None`.
#[derive(Debug)]
pub struct Layout {
    /// The library that is loaded when the engine starts.
    pub framework_bin: Option<Vec<String>>,
    pub framework_dir: Option<Vec<String>>,
    /// The program that runs the engine's other processes.
    pub helper: Vec<String>,
    pub main_bundle: Option<Vec<String>>,
    pub resources: Vec<String>,
    pub locales: Option<Vec<String>>,
}

/// The model of a [`Layout`].
#[verifier::ext_equal]
pub struct LayoutV {
    pub framework_bin: Option<Seq<Seq<char>>>,
    pub framework_dir: Option<Seq<Seq<char>>>,
    pub helper: Seq<Seq<char>>,
    pub main_bundle: Option<Seq<Seq<char>>>,
    pub resources: Seq<Seq<char>>,
    pub locales: Option<Seq<Seq<char>>>,
}

/// The components of an optional path.
pub open spec fn optional_path(p: Option<Vec<String>>) -> Option<Seq<Seq<char>>> {
    match p {
        Some(v) => Some(events::texts(v@)),
        None => None,
    }
}

impl View for Layout {
    type V = LayoutV;

    open spec fn view(&self) -> LayoutV {
        LayoutV {
            framework_bin: optional_path(self.framework_bin),
            framework_dir: optional_path(self.framework_dir),
            helper: events::texts(self.helper@),
            main_bundle: optional_path(self.main_bundle),
            resources: events::texts(self.resources@),
            locales: optional_path(self.locales),
        }
    }
}

/// Where the native engine's parts lie on `platform`: in bundles on macOS, beside the module
/// elsewhere.
pub open spec fn layout_on(platform: Platform) -> LayoutV {
    match platform {
        Platform::MacOs => LayoutV {
            framework_bin: Some(
                seq![
                    "Chromium Embedded Framework.framework"@,
                    "Chromium Embedded Framework"@,
                ],
            ),
            framework_dir: Some(seq!["Chromium Embedded Framework.framework"@]),
            helper: seq![
                "soksak-sidecar-browser-chromium Helper.app"@,
                "Contents/MacOS/soksak-sidecar-browser-chromium Helper"@,
            ],
            main_bundle: Some(seq!["soksak-sidecar-browser-chromium Helper.app"@]),
            resources: seq!["Chromium Embedded Framework.framework"@, "Resources"@],
            locales: None,
        },
        Platform::Windows => LayoutV {
            framework_bin: None,
            framework_dir: None,
            helper: seq!["soksak-sidecar-browser-chromium-helper.exe"@],
            main_bundle: None,
            resources: Seq::empty(),
            locales: Some(seq!["locales"@]),
        },
        Platform::Linux => LayoutV {
            framework_bin: None,
            framework_dir: None,
            helper: seq!["soksak-sidecar-browser-chromium-helper"@],
            main_bundle: None,
            resources: Seq::empty(),
            locales: Some(seq!["locales"@]),
        },
    }
}

fn one(a: &str) -> (r: Vec<String>)
    ensures
        events::texts(r@) == seq![a@],
{
    let mut v: Vec<String> = Vec::new();
    v.push(a.to_owned());
    assert(events::texts(v@) =~= seq![a@]);
    v
}

fn two(a: &str, b: &str) -> (r: Vec<String>)
    ensures
        events::texts(r@) == seq![a@, b@],
{
    let mut v: Vec<String> = Vec::new();
    v.push(a.to_owned());
    v.push(b.to_owned());
    assert(events::texts(v@) =~= seq![a@, b@]);
    v
}

/// Where the native engine's parts lie on `platform`.
pub fn layout(platform: Platform) -> (r: Layout)
    ensures
        r@ == layout_on(platform),
{
    match platform {
        Platform::MacOs => Layout {
            framework_bin: Some(
                two("Chromium Embedded Framework.framework", "Chromium Embedded Framework"),
            ),
            framework_dir: Some(one("Chromium Embedded Framework.framework")),
            helper: two(
                "soksak-sidecar-browser-chromium Helper.app",
                "Contents/MacOS/soksak-sidecar-browser-chromium Helper",
            ),
            main_bundle: Some(one("soksak-sidecar-browser-chromium Helper.app")),
            resources: two("Chromium Embedded Framework.framework", "Resources"),
            locales: None,
        },
        Platform::Windows => {
            let none: Vec<String> = Vec::new();
            assert(events::texts(none@) =~= Seq::empty());
            Layout {
                framework_bin: None,
                framework_dir: None,
                helper: one("soksak-sidecar-browser-chromium-helper.exe"),
                main_bundle: None,
                resources: none,
                locales: Some(one("locales")),
            }
        },
        Platform::Linux => {
            let none: Vec<String> = Vec::new();
            assert(events::texts(none@) =~= Seq::empty());
            Layout {
                framework_bin: None,
                framework_dir: None,
                helper: one("soksak-sidecar-browser-chromium-helper"),
                main_bundle: None,
                resources: none,
                locales: Some(one("locales")),
            }
        },
    }
}

/// What the native engine is told when it starts.
#[derive(Debug)]
pub struct Startup {
    /// 1: without a sandbox.
    pub no_sandbox: i32,
    /// 1: the module runs the message loop.
    pub external_message_pump: i32,
    /// The port of the debugging server; 0 for none.
    pub remote_debugging_port: i32,
    /// This process's own profile directory, below the directory of all of them.
    pub cache_name: String,
    pub layout: Layout,
}

/// Starts: the debugging port is on record, and what the native engine is told comes back. `port`
/// is a free port, where one was found.
pub fn initialize(e: &mut Engine, port: Option<u16>, own_pid: u32) -> (r: Startup)
    ensures
        final(e)@ == (EngineV {
            devtools_port: match port {
                Some(p) => p as u32,
                None => 0,
            },
            ..old(e)@
        }),
        r.no_sandbox == 1,
        r.external_message_pump == 1,
        r.remote_debugging_port == final(e)@.devtools_port,
        r.cache_name@ == text::decimal(own_pid as nat),
        r.layout@ == layout_on(old(e)@.platform),
{
    let p: u16 = match port {
        Some(p) => p,
        None => 0,
    };
    e.devtools_port = p as u32;
    let mut cache_name = String::new();
    text::push_decimal(&mut cache_name, own_pid as u64);
    assert(cache_name@ =~= text::decimal(own_pid as nat));
    Startup {
        no_sandbox: 1,
        external_message_pump: 1,
        remote_debugging_port: p as i32,
        cache_name,
        layout: layout(e.platform),
    }
}

/// The process that the profile directory `name` belongs to, unless that is process `own_pid`: where
/// no such process runs, the directory is left over.
pub open spec fn left_over(name: Seq<char>, own_pid: u32) -> Option<i32> {
    match text::signed_named(name) {
        Some(pid) => if pid != own_pid as i32 {
            Some(pid)
        } else {
            None
        },
        None => None,
    }
}

/// The process to look for before the profile directory `name` is removed.
pub fn stale_candidate(name: &str, own_pid: u32) -> (r: Option<i32>)
    ensures
        r == left_over(name@, own_pid),
{
    let chars = text::chars_of(name);
    match text::parse_i32(chars.as_slice()) {
        Some(pid) => if pid != own_pid as i32 {
            Some(pid)
        } else {
            None
        },
        None => None,
    }
}

/// Whether the profile directory `name` is to be removed: it belongs to another process, and that one
/// no longer `lives`.
pub fn remove_profile(name: &str, own_pid: u32, lives: bool) -> (r: bool)
    ensures
        r == (left_over(name@, own_pid) is Some && !lives),
{
    stale_candidate(name, own_pid).is_some() && !lives
}

/// A command line switch, with its value where it has one.
#[derive(Debug)]
pub struct Switch {
    pub name: String,
    pub value: Option<String>,
}

/// The model of a [`Switch`]: name and value.
pub type SwitchV = (Seq<char>, Option<Seq<char>>);

impl View for Switch {
    type V = SwitchV;

    open spec fn view(&self) -> SwitchV {
        (
            self.name@,
            match self.value {
                Some(v) => Some(v@),
                None => None,
            },
        )
    }
}

/// The models of switches.
pub open spec fn switches_model(s: Seq<Switch>) -> Seq<SwitchV> {
    s.map_values(|w: Switch| w@)
}

/// The switches that the native engine starts with. The debugging server takes connections from its
/// own pages only.
pub open spec fn switches_of(port: u32) -> Seq<SwitchV> {
    let basic: Seq<SwitchV> = seq![
        ("use-mock-keychain"@, None),
        ("disable-popup-blocking"@, None),
    ];
    if port != 0 {
        basic.push(
            (
                "remote-allow-origins"@,
                Some("http://127.0.0.1:"@ + text::decimal(port as nat)),
            ),
        )
    } else {
        basic
    }
}

/// The switches that the native engine starts with.
pub fn on_before_command_line_processing(e: &Engine) -> (r: Vec<Switch>)
    ensures
        switches_model(r@) == switches_of(e@.devtools_port),
{
    let mut out: Vec<Switch> = Vec::new();
    out.push(Switch { name: "use-mock-keychain".to_owned(), value: None });
    out.push(Switch { name: "disable-popup-blocking".to_owned(), value: None });
    if e.devtools_port != 0 {
        let mut origin = "http://127.0.0.1:".to_owned();
        text::push_decimal(&mut origin, e.devtools_port as u64);
        out.push(Switch { name: "remote-allow-origins".to_owned(), value: Some(origin) });
    }
    assert(switches_model(out@) =~= switches_of(e@.devtools_port));
    out
}

}
