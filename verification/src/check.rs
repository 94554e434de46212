//! Which properties are checked, and what a check says.
//!
//! A check either enforces its property, by recording a violation, or only observes it, by saying
//! on the log that it was evaluated. A property whose finding is already known can be muted, so
//! that it does not hide the first finding of every other one. A muted property is
//! indistinguishable from a passing one unless the run says so out loud, so muting is announced.

use vstd::prelude::*;
use vstd::string::*;

use crate::handover::{hand_over_violation, set_chain_mode, ChainMode, Violation};
use crate::text::{list_names, names, to_chars};

verus! {

/// What the run was asked to check.
pub struct Settings {
    /// `observe`, or anything else to enforce.
    pub mode: Option<String>,
    /// The muted properties, separated by commas.
    pub mute: Option<String>,
    /// The one property to check, and every one where there is none.
    pub only: Option<String>,
    /// The nonce that the log lines of an observing run carry.
    pub run: Option<String>,
}

/// The settings of a run, what it has said so far, and the violations it has recorded.
pub struct Monitor {
    pub settings: Settings,
    /// Whether the muting has been announced.
    pub mute_announced: bool,
    /// Whether an unusable nonce has been reported.
    pub error_emitted: bool,
    /// Whether the session has been opened on the log.
    pub session_emitted: bool,
    /// The log lines, in order.
    pub lines: Vec<String>,
    /// The violations that were recorded, each handed to the fuzzer, in order.
    pub violations: Vec<Violation>,
}

/// The log, as texts.
pub open spec fn texts(lines: Seq<String>) -> Seq<Seq<char>> {
    lines.map_values(|line: String| line@)
}

/// The messages of some violations.
pub open spec fn messages(violations: Seq<Violation>) -> Seq<Seq<char>> {
    violations.map_values(|violation: Violation| violation@)
}

/// An optional text.
pub open spec fn text(s: Option<String>) -> Option<Seq<char>> {
    match s {
        Some(s) => Some(s@),
        None => None,
    }
}

/// What a monitor amounts to.
#[verifier::ext_equal]
pub struct MonitorView {
    pub mode: Option<Seq<char>>,
    pub mute: Option<Seq<char>>,
    pub only: Option<Seq<char>>,
    pub run: Option<Seq<char>>,
    pub mute_announced: bool,
    pub error_emitted: bool,
    pub session_emitted: bool,
    pub lines: Seq<Seq<char>>,
    pub violations: Seq<Seq<char>>,
}

/// The characters that a nonce may hold. Any other could forge the fields of a log line.
pub open spec fn nonce_char(c: char) -> bool {
    ||| '0' <= c <= '9'
    ||| 'A' <= c <= 'Z'
    ||| 'a' <= c <= 'z'
    ||| c == '_'
    ||| c == '.'
    ||| c == ':'
    ||| c == '-'
}

/// The nonce of a run, or why there is none.
pub open spec fn nonce_of(run: Option<Seq<char>>) -> Result<Seq<char>, Seq<char>> {
    match run {
        None => Err("missing or non-Unicode SCOUT_CHECK_RUN"@),
        Some(nonce) => if nonce.len() == 0 {
            Err("empty SCOUT_CHECK_RUN"@)
        } else if exists|i: int| 0 <= i < nonce.len() && !nonce_char(#[trigger] nonce[i]) {
            Err("SCOUT_CHECK_RUN contains unsafe characters"@)
        } else {
            Ok(nonce)
        },
    }
}

/// A log line about one check.
pub open spec fn marker(
    tag: Seq<char>,
    nonce: Seq<char>,
    property: Seq<char>,
    site: Seq<char>,
    place: Seq<char>,
) -> Seq<char> {
    tag + nonce + " "@ + property + " "@ + site + " "@ + place
}

impl MonitorView {
    /// Whether the run only observes.
    pub open spec fn observes(self) -> bool {
        self.mode == Some("observe"@)
    }

    /// Whether a property is muted.
    pub open spec fn mutes(self, property: Seq<char>) -> bool {
        self.mute is Some && names(self.mute->0, property)
    }

    /// Whether a property is checked.
    pub open spec fn selects(self, property: Seq<char>) -> bool {
        !self.mutes(property) && (self.only is Some ==> self.only->0 == property)
    }

    /// One more line on the log.
    pub open spec fn say(self, line: Seq<char>) -> MonitorView {
        MonitorView { lines: self.lines.push(line), ..self }
    }

    /// One more violation.
    pub open spec fn record(self, message: Seq<char>) -> MonitorView {
        MonitorView { violations: self.violations.push(message), ..self }
    }

    /// The muting announced, unless it was before.
    pub open spec fn announce(self, list: Seq<char>) -> MonitorView {
        if self.mute_announced {
            self
        } else {
            MonitorView { mute_announced: true, ..self.say("[SCOUT_CHECK_MUTED] "@ + list) }
        }
    }

    /// What asking for a property leaves behind: where it is muted, the muting is announced.
    pub open spec fn asked(self, property: Seq<char>) -> MonitorView {
        if self.mutes(property) {
            self.announce(self.mute->0)
        } else {
            self
        }
    }

    /// An unusable nonce reported, unless one was before. The value itself is never echoed.
    pub open spec fn emit_error(self, reason: Seq<char>) -> MonitorView {
        if self.error_emitted {
            self
        } else {
            MonitorView {
                error_emitted: true,
                ..self.say("[SCOUT_CHECK_ERROR] INVALID "@ + reason)
            }
        }
    }

    /// The session opened on the log, where the run observes and it was not opened before.
    pub open spec fn open_session(self) -> MonitorView {
        if !self.observes() || self.session_emitted {
            self
        } else {
            let opened = MonitorView { session_emitted: true, ..self };
            match nonce_of(self.run) {
                Ok(nonce) => opened.say("[SCOUT_CHECK_SESSION] "@ + nonce),
                Err(reason) => opened.emit_error(reason),
            }
        }
    }

    /// What a check of a property leaves behind.
    pub open spec fn checked(
        self,
        property: Seq<char>,
        site: Seq<char>,
        place: Seq<char>,
        holds: bool,
        message: Seq<char>,
    ) -> MonitorView {
        let asked = self.asked(property);
        if !self.selects(property) {
            asked
        } else if !self.observes() {
            if holds {
                asked
            } else {
                asked.record(message)
            }
        } else {
            match nonce_of(self.run) {
                Err(reason) => asked.emit_error(reason),
                Ok(nonce) => {
                    let evaluated = asked.say(
                        marker("[SCOUT_CHECK_EVALUATED] "@, nonce, property, site, place),
                    );
                    if holds {
                        evaluated
                    } else {
                        evaluated.say(
                            marker("[SCOUT_CHECK_WOULD_VIOLATE] "@, nonce, property, site, place),
                        )
                    }
                },
            }
        }
    }

    /// What a check of a property answers: that it holds where it is not asked, and that it does
    /// not where the session is unusable.
    pub open spec fn answer(self, property: Seq<char>, holds: bool) -> bool {
        if !self.selects(property) {
            true
        } else if self.observes() && nonce_of(self.run) is Err {
            false
        } else {
            holds
        }
    }
}

impl View for Monitor {
    type V = MonitorView;

    open spec fn view(&self) -> MonitorView {
        MonitorView {
            mode: text(self.settings.mode),
            mute: text(self.settings.mute),
            only: text(self.settings.only),
            run: text(self.settings.run),
            mute_announced: self.mute_announced,
            error_emitted: self.error_emitted,
            session_emitted: self.session_emitted,
            lines: texts(self.lines@),
            violations: messages(self.violations@),
        }
    }
}

/// Two texts, one after the other.
fn join(a: &str, b: &str) -> (r: String)
    ensures
        r@ == a@ + b@,
{
    String::from_str(a).concat(b)
}

/// A log line about one check.
fn make_marker(tag: &str, nonce: &str, property: &str, site: &str, place: &str) -> (r: String)
    ensures
        r@ == marker(tag@, nonce@, property@, site@, place@),
{
    join(tag, nonce).concat(" ").concat(property).concat(" ").concat(site).concat(" ").concat(place)
}

impl Monitor {
    /// A monitor that has said nothing yet.
    pub fn new(settings: Settings) -> (r: Self)
        ensures
            r.settings == settings,
            r@ == (MonitorView {
                mode: text(settings.mode),
                mute: text(settings.mute),
                only: text(settings.only),
                run: text(settings.run),
                mute_announced: false,
                error_emitted: false,
                session_emitted: false,
                lines: Seq::empty(),
                violations: Seq::empty(),
            }),
    {
        let monitor = Monitor {
            settings,
            mute_announced: false,
            error_emitted: false,
            session_emitted: false,
            lines: Vec::new(),
            violations: Vec::new(),
        };
        assert(monitor@.lines =~= Seq::empty());
        assert(monitor@.violations =~= Seq::empty());
        monitor
    }

    /// Adds a line to the log.
    fn push_line(&mut self, line: String)
        ensures
            final(self)@ == old(self)@.say(line@),
            final(self).settings == old(self).settings,
    {
        self.lines.push(line);
        assert(texts(self.lines@) =~= texts(old(self).lines@).push(line@));
    }

    /// Whether the run only observes.
    pub fn __scout_check_observe_mode(&self) -> (r: bool)
        ensures
            r == self@.observes(),
    {
        match &self.settings.mode {
            Some(mode) => *mode == String::from_str("observe"),
            None => false,
        }
    }

    /// Announces the muted properties, once.
    pub fn __scout_check_announce_mutes(&mut self, list: &str)
        ensures
            final(self)@ == old(self)@.announce(list@),
            final(self).settings == old(self).settings,
    {
        if !self.mute_announced {
            self.push_line(join("[SCOUT_CHECK_MUTED] ", list));
            self.mute_announced = true;
        }
    }

    /// Whether a property is muted. Where it is, the muting is announced.
    pub fn __scout_check_muted(&mut self, property: &str) -> (r: bool)
        ensures
            r == old(self)@.mutes(property@),
            final(self)@ == old(self)@.asked(property@),
            final(self).settings == old(self).settings,
    {
        let list = match &self.settings.mute {
            Some(list) => list.clone(),
            None => {
                return false;
            },
        };
        let muted = list_names(&list, property);
        if muted {
            self.__scout_check_announce_mutes(&list);
        }
        muted
    }

    /// Whether a property is checked: it is not muted, and it is the one selected, where one is.
    pub fn __scout_check_selected(&mut self, property: &str) -> (r: bool)
        ensures
            r == old(self)@.selects(property@),
            final(self)@ == old(self)@.asked(property@),
            final(self).settings == old(self).settings,
    {
        if self.__scout_check_muted(property) {
            return false;
        }
        match &self.settings.only {
            Some(selected) => *selected == String::from_str(property),
            None => true,
        }
    }

    /// The nonce of the run, or why there is none.
    pub fn __scout_check_nonce(&self) -> (r: Result<String, &'static str>)
        ensures
            r is Ok == nonce_of(self@.run) is Ok,
            r is Ok ==> r->Ok_0@ == nonce_of(self@.run)->Ok_0,
            r is Err ==> r->Err_0@ == nonce_of(self@.run)->Err_0,
    {
        let nonce = match &self.settings.run {
            Some(nonce) => nonce.clone(),
            None => {
                return Err("missing or non-Unicode SCOUT_CHECK_RUN");
            },
        };
        let chars = to_chars(&nonce);
        if chars.len() == 0 {
            return Err("empty SCOUT_CHECK_RUN");
        }
        let mut i: usize = 0;
        while i < chars.len()
            invariant
                i <= chars@.len(),
                chars@ == nonce@,
                chars@.len() > 0,
                self@.run == Some(nonce@),
                forall|j: int| 0 <= j < i ==> nonce_char(#[trigger] nonce@[j]),
            decreases chars@.len() - i,
        {
            let c = chars[i];
            let plain = ('0' <= c && c <= '9') || ('A' <= c && c <= 'Z') || ('a' <= c && c <= 'z');
            if !(plain || c == '_' || c == '.' || c == ':' || c == '-') {
                assert(!nonce_char(nonce@[i as int]));
                return Err("SCOUT_CHECK_RUN contains unsafe characters");
            }
            i = i + 1;
        }
        Ok(nonce)
    }

    /// Reports an unusable nonce, once. The value itself is never echoed: white space in it would
    /// forge the fields of a log line.
    pub fn __scout_check_emit_error(&mut self, reason: &str)
        ensures
            final(self)@ == old(self)@.emit_error(reason@),
            final(self).settings == old(self).settings,
    {
        if !self.error_emitted {
            self.push_line(join("[SCOUT_CHECK_ERROR] INVALID ", reason));
            self.error_emitted = true;
        }
    }

    /// Opens the session of an observing run: failed actions end their chains, as they do in a run
    /// that enforces, and the log says once which session it belongs to. An enforcing run has
    /// nothing to open.
    pub fn scout_check_session(&mut self) -> (r: Option<ChainMode>)
        ensures
            r is Some == old(self)@.observes(),
            r is Some ==> r->0.ends_chains(),
            final(self)@ == old(self)@.open_session(),
            final(self).settings == old(self).settings,
    {
        if self.__scout_check_observe_mode() {
            let mode = set_chain_mode(true);
            if !self.session_emitted {
                self.session_emitted = true;
                match self.__scout_check_nonce() {
                    Ok(nonce) => self.push_line(join("[SCOUT_CHECK_SESSION] ", &nonce)),
                    Err(reason) => self.__scout_check_emit_error(reason),
                }
            }
            Some(mode)
        } else {
            None
        }
    }

    /// Checks a property at a site: whether it `holds`, and what to say where it does not. A
    /// violation is recorded by handing it to the fuzzer.
    pub fn scout_check(
        &mut self,
        property: &str,
        site: &str,
        place: &str,
        holds: bool,
        message: String,
    ) -> (r: bool)
        ensures
            r == old(self)@.answer(property@, holds),
            final(self)@ == old(self)@.checked(property@, site@, place@, holds, message@),
            final(self).settings == old(self).settings,
    {
        let observe = self.__scout_check_observe_mode();
        if !self.__scout_check_selected(property) {
            return true;
        }
        if observe {
            match self.__scout_check_nonce() {
                Err(reason) => {
                    self.__scout_check_emit_error(reason);
                    false
                },
                Ok(nonce) => {
                    let evaluated = "[SCOUT_CHECK_EVALUATED] ";
                    self.push_line(make_marker(evaluated, &nonce, property, site, place));
                    if !holds {
                        let violated = "[SCOUT_CHECK_WOULD_VIOLATE] ";
                        self.push_line(make_marker(violated, &nonce, property, site, place));
                    }
                    holds
                },
            }
        } else {
            if !holds {
                let violation = hand_over_violation(message);
                self.violations.push(violation);
                assert(messages(self.violations@) =~= messages(old(self).violations@).push(
                    message@,
                ));
            }
            holds
        }
    }
}

} // verus!
