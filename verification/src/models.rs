//! The profile document's shape, as plain data: which services run and how
//! they are configured. Parsing the document and expanding environment
//! variables happen at the edge; what arrives here is already plain values.

use vstd::prelude::*;

use crate::command::views_of;
use crate::config::Entry;
use crate::services::seccomp::SeccompConfig;

verus! {

/// The dbus section: the proxy executable, the bus it connects to, and the
/// names the payload may own or talk to.
#[derive(Debug)]
pub struct DbusConfig {
    pub bin: String,
    pub bus_address: String,
    pub own: Vec<String>,
    pub talk: Vec<String>,
}

/// The command-template section: the sandbox executable, the template's
/// name, the directory it is loaded from, and its substitution context.
#[derive(Debug)]
pub struct TemplateConfig {
    pub bin: String,
    pub name: String,
    pub dir: String,
    pub context: Vec<(String, ContextValue)>,
}

/// A substitution value of the command template.
#[derive(Debug)]
pub enum ContextValue {
    /// A value that went through environment expansion.
    Env { src: String },
}

/// A whole profile as read from disk: optional service sections, each
/// inline or in its own file, plus the command template.
#[derive(Debug)]
pub struct ProfileConfig {
    pub dbus: Option<Entry<DbusConfig>>,
    pub seccomp: Option<Entry<SeccompConfig>>,
    pub template: TemplateConfig,
}

/// A profile with every file reference already loaded.
#[derive(Debug)]
pub struct AppConfig {
    pub dbus: Option<DbusConfig>,
    pub seccomp: Option<SeccompConfig>,
    pub template: TemplateConfig,
}

/// Each name prefixed, as one proxy flag per name.
pub open spec fn prefixed(prefix: Seq<char>, names: Seq<String>) -> Seq<Seq<char>> {
    Seq::new(names.len(), |i: int| prefix + names[i]@)
}

/// The session-bus proxy's argument vector for a filter configuration:
/// the bus address, the proxy socket, `--filter`, one `--talk=` flag per
/// name the payload may talk to, and one `--own=` flag per name it may
/// own.
pub open spec fn filter_argv_spec(cfg: &DbusConfig, socket: Seq<char>) -> Seq<Seq<char>> {
    seq![cfg.bus_address@, socket, "--filter"@] + prefixed("--talk="@, cfg.talk@) + prefixed(
        "--own="@,
        cfg.own@,
    )
}

/// Builds the proxy's argument vector from a filter configuration.
pub fn filter_argv(cfg: &DbusConfig, socket: &String) -> (r: Vec<String>)
    ensures
        views_of(r@) =~= filter_argv_spec(cfg, socket@),
{
    let mut argv: Vec<String> = Vec::new();
    argv.push(cfg.bus_address.clone());
    argv.push(socket.clone());
    argv.push("--filter".to_owned());
    let ghost head = views_of(argv@);
    let tn = cfg.talk.len();
    let mut i: usize = 0;
    while i < tn
        invariant
            i <= tn,
            tn == cfg.talk@.len(),
            head.len() == 3,
            head == views_of(argv@).take(3),
            argv@.len() == 3 + i,
            views_of(argv@) =~= head + prefixed("--talk="@, cfg.talk@).take(i as int),
        decreases tn - i,
    {
        let ghost prev = argv@;
        let mut flag = "--talk=".to_owned();
        flag.append(cfg.talk[i].as_str());
        argv.push(flag);
        proof {
            let rhs = head + prefixed("--talk="@, cfg.talk@).take(i as int + 1);
            assert forall|t: int| 0 <= t < argv@.len() implies views_of(argv@)[t] == rhs[t] by {
                if t < prev.len() {
                    assert(argv@[t] == prev[t]);
                    assert(views_of(prev)[t] == (head + prefixed("--talk="@, cfg.talk@).take(
                        i as int,
                    ))[t]);
                } else {
                    assert(views_of(argv@)[t] == "--talk="@ + cfg.talk@[i as int]@);
                }
            }
            assert(views_of(argv@) =~= rhs);
            assert(head == views_of(argv@).take(3));
        }
        i = i + 1;
    }
    proof {
        assert(prefixed("--talk="@, cfg.talk@).take(tn as int) =~= prefixed(
            "--talk="@,
            cfg.talk@,
        ));
    }
    let ghost mid = views_of(argv@);
    let on = cfg.own.len();
    let mut j: usize = 0;
    while j < on
        invariant
            j <= on,
            on == cfg.own@.len(),
            mid.len() == 3 + cfg.talk@.len(),
            mid =~= head + prefixed("--talk="@, cfg.talk@),
            head.len() == 3,
            argv@.len() == mid.len() + j,
            views_of(argv@) =~= mid + prefixed("--own="@, cfg.own@).take(j as int),
        decreases on - j,
    {
        let ghost prev = argv@;
        let mut flag = "--own=".to_owned();
        flag.append(cfg.own[j].as_str());
        argv.push(flag);
        proof {
            let rhs = mid + prefixed("--own="@, cfg.own@).take(j as int + 1);
            assert forall|t: int| 0 <= t < argv@.len() implies views_of(argv@)[t] == rhs[t] by {
                if t < prev.len() {
                    assert(argv@[t] == prev[t]);
                    assert(views_of(prev)[t] == (mid + prefixed("--own="@, cfg.own@).take(
                        j as int,
                    ))[t]);
                } else {
                    assert(views_of(argv@)[t] == "--own="@ + cfg.own@[j as int]@);
                }
            }
            assert(views_of(argv@) =~= rhs);
        }
        j = j + 1;
    }
    proof {
        assert(prefixed("--own="@, cfg.own@).take(on as int) =~= prefixed("--own="@, cfg.own@));
        assert(views_of(argv@) =~= filter_argv_spec(cfg, socket@));
    }
    argv
}

} // verus!
