//! What holds of every check: what is recorded, what is said, and what a muted property does.

use vstd::prelude::*;

use crate::check::{marker, nonce_of, MonitorView};
use crate::fixture::OnreappFixture;
use crate::invariants::{
    aggregate_verdict, all_played, all_reported, fee_vault_verdict, fee_verdicts, legs_verdicts,
    played, played_in_order, supply_verdict, vault_verdict, Places, Verdict,
};

verus! {

/// Whether two monitors were asked for the same.
pub open spec fn same_settings(a: MonitorView, b: MonitorView) -> bool {
    &&& a.mode == b.mode
    &&& a.mute == b.mute
    &&& a.only == b.only
    &&& a.run == b.run
}

/// Whether a line starts with a tag.
pub open spec fn tagged(line: Seq<char>, tag: Seq<char>) -> bool {
    tag.len() <= line.len() && line.subrange(0, tag.len() as int) == tag
}

/// How many lines start with a tag.
pub open spec fn count_tagged(lines: Seq<Seq<char>>, tag: Seq<char>) -> nat
    decreases lines.len(),
{
    if lines.len() == 0 {
        0
    } else {
        count_tagged(lines.drop_last(), tag) + if tagged(lines.last(), tag) {
            1nat
        } else {
            0
        }
    }
}

/// The messages of the verdicts that do not hold, in order.
pub open spec fn failing(verdicts: Seq<Option<Verdict>>) -> Seq<Seq<char>>
    decreases verdicts.len(),
{
    if verdicts.len() == 0 {
        Seq::empty()
    } else {
        let earlier = failing(verdicts.drop_last());
        match verdicts.last() {
            Some(verdict) => if verdict.holds {
                earlier
            } else {
                earlier.push(verdict.message)
            },
            None => earlier,
        }
    }
}

/// What an enforcing run has to record of a property in a world.
pub open spec fn owed(
    monitor: MonitorView,
    property: Seq<char>,
    verdicts: Seq<Option<Verdict>>,
) -> Seq<Seq<char>> {
    if monitor.selects(property) {
        failing(verdicts)
    } else {
        Seq::empty()
    }
}

/// What an enforcing run has to record, given the verdicts of each property.
pub open spec fn owed_in_order(
    monitor: MonitorView,
    v2: Seq<Option<Verdict>>,
    v3: Seq<Option<Verdict>>,
    v4: Seq<Option<Verdict>>,
    v5: Seq<Option<Verdict>>,
    v6: Seq<Option<Verdict>>,
    v8: Seq<Option<Verdict>>,
) -> Seq<Seq<char>> {
    owed(monitor, "P-0002"@, v2) + owed(monitor, "P-0003"@, v3) + owed(monitor, "P-0004"@, v4)
        + owed(monitor, "P-0005"@, v5) + owed(monitor, "P-0006"@, v6) + owed(
        monitor,
        "P-0008"@,
        v8,
    )
}

/// What an enforcing run has to record of a world.
pub open spec fn all_owed(f: OnreappFixture, monitor: MonitorView) -> Seq<Seq<char>> {
    owed_in_order(
        monitor,
        seq![vault_verdict(f)],
        seq![aggregate_verdict(f)],
        seq![supply_verdict(f)],
        legs_verdicts(f),
        fee_verdicts(f),
        seq![fee_vault_verdict(f)],
    )
}

/// A muted property neither records nor evaluates, and its muting is announced.
pub proof fn law_muted_property_is_silent_but_announced(
    monitor: MonitorView,
    property: Seq<char>,
    site: Seq<char>,
    place: Seq<char>,
    holds: bool,
    message: Seq<char>,
)
    requires
        monitor.mutes(property),
    ensures
        monitor.checked(property, site, place, holds, message) == monitor.announce(monitor.mute->0),
        monitor.checked(property, site, place, holds, message).violations == monitor.violations,
        monitor.checked(property, site, place, holds, message).mute_announced,
        monitor.answer(property, holds),
{
}

/// With one property selected, no other one leaves a trace.
pub proof fn law_selection_isolates_a_property(
    monitor: MonitorView,
    property: Seq<char>,
    site: Seq<char>,
    place: Seq<char>,
    verdicts: Seq<Option<Verdict>>,
)
    requires
        monitor.only is Some,
        monitor.only->0 != property,
        !monitor.mutes(property),
    ensures
        played(monitor, property, site, place, verdicts) == monitor,
{
    reveal(played);
}

/// Reporting verdicts changes neither the settings nor what is announced beyond the property.
proof fn lemma_all_reported(
    monitor: MonitorView,
    property: Seq<char>,
    site: Seq<char>,
    place: Seq<char>,
    verdicts: Seq<Option<Verdict>>,
)
    requires
        monitor.selects(property),
    ensures
        ({
            let after = all_reported(monitor, property, site, place, verdicts);
            &&& same_settings(after, monitor)
            &&& monitor.observes() ==> after.violations == monitor.violations
            &&& !monitor.observes() ==> {
                &&& after.violations =~= monitor.violations + failing(verdicts)
                &&& after.lines == monitor.lines
            }
        }),
    decreases verdicts.len(),
{
    if verdicts.len() > 0 {
        lemma_all_reported(monitor, property, site, place, verdicts.drop_last());
    }
}

/// Playing a property changes no settings, and records what is owed.
proof fn lemma_played(
    monitor: MonitorView,
    property: Seq<char>,
    site: Seq<char>,
    place: Seq<char>,
    verdicts: Seq<Option<Verdict>>,
)
    ensures
        ({
            let after = played(monitor, property, site, place, verdicts);
            &&& same_settings(after, monitor)
            &&& monitor.observes() ==> after.violations == monitor.violations
            &&& !monitor.observes() ==> after.violations =~= monitor.violations + owed(
                monitor,
                property,
                verdicts,
            )
        }),
{
    reveal(played);
    if monitor.selects(property) {
        lemma_all_reported(monitor.asked(property), property, site, place, verdicts);
    }
}

/// Playing the properties in order records what is owed.
proof fn lemma_played_in_order(
    monitor: MonitorView,
    at: Places<'_>,
    v2: Seq<Option<Verdict>>,
    v3: Seq<Option<Verdict>>,
    v4: Seq<Option<Verdict>>,
    v5: Seq<Option<Verdict>>,
    v6: Seq<Option<Verdict>>,
    v8: Seq<Option<Verdict>>,
)
    ensures
        ({
            let after = played_in_order(monitor, at, v2, v3, v4, v5, v6, v8);
            &&& monitor.observes() ==> after.violations == monitor.violations
            &&& !monitor.observes() ==> after.violations =~= monitor.violations + owed_in_order(
                monitor,
                v2,
                v3,
                v4,
                v5,
                v6,
                v8,
            )
        }),
{
    let p2 = played(monitor, "P-0002"@, "vault-covers-open-redemption-requests"@, at.p_0002@, v2);
    let p3 = played(
        p2,
        "P-0003"@,
        "requested-redemptions-equals-sum-of-open-requests"@,
        at.p_0003@,
        v3,
    );
    let p4 = played(p3, "P-0004"@, "onyc-supply-within-configured-max-supply"@, at.p_0004@, v4);
    let p5 = played(p4, "P-0005"@, "offer-legs-are-distinct-mints"@, at.p_0005@, v5);
    let p6 = played(p5, "P-0006"@, "offer-fee-within-max-allowed-bps"@, at.p_0006@, v6);
    lemma_played(monitor, "P-0002"@, "vault-covers-open-redemption-requests"@, at.p_0002@, v2);
    lemma_played(
        p2,
        "P-0003"@,
        "requested-redemptions-equals-sum-of-open-requests"@,
        at.p_0003@,
        v3,
    );
    lemma_played(p3, "P-0004"@, "onyc-supply-within-configured-max-supply"@, at.p_0004@, v4);
    lemma_played(p4, "P-0005"@, "offer-legs-are-distinct-mints"@, at.p_0005@, v5);
    lemma_played(p5, "P-0006"@, "offer-fee-within-max-allowed-bps"@, at.p_0006@, v6);
    lemma_played(p6, "P-0008"@, "fee-mint-redemption-vault-covers-open-claims"@, at.p_0008@, v8);
}

/// An observing run never records a violation. An enforcing run records exactly the messages of the
/// selected properties that do not hold, in order.
pub proof fn law_recorded_violations(f: OnreappFixture, monitor: MonitorView, places: Places<'_>)
    ensures
        monitor.observes() ==> all_played(f, monitor, places).violations == monitor.violations,
        !monitor.observes() ==> all_played(f, monitor, places).violations == monitor.violations
            + all_owed(f, monitor),
{
    let v2 = seq![vault_verdict(f)];
    let v3 = seq![aggregate_verdict(f)];
    let v4 = seq![supply_verdict(f)];
    let v8 = seq![fee_vault_verdict(f)];
    let opened = monitor.open_session();
    lemma_played_in_order(opened, places, v2, v3, v4, legs_verdicts(f), fee_verdicts(f), v8);
}

// ---- the log ----

/// One more line counts once where it carries the tag.
proof fn lemma_count_push(lines: Seq<Seq<char>>, line: Seq<char>, tag: Seq<char>)
    ensures
        count_tagged(lines.push(line), tag) == count_tagged(lines, tag) + if tagged(line, tag) {
            1nat
        } else {
            0
        },
{
    assert(lines.push(line).drop_last() =~= lines);
}

/// A line that starts with a tag carries it, and carries no tag that differs from it early on.
proof fn lemma_tagged(tag: Seq<char>, rest: Seq<char>, other: Seq<char>, at: int)
    ensures
        tagged(tag + rest, tag),
        0 <= at < tag.len() && at < other.len() && tag[at] != other[at] ==> !tagged(
            tag + rest,
            other,
        ),
{
    assert((tag + rest).subrange(0, tag.len() as int) =~= tag);
    if 0 <= at < tag.len() && at < other.len() && tag[at] != other[at] && tagged(
        tag + rest,
        other,
    ) {
        assert((tag + rest).subrange(0, other.len() as int)[at] == tag[at]);
    }
}

/// How many announcements of the muting the log holds.
pub open spec fn announcements(monitor: MonitorView) -> nat {
    count_tagged(monitor.lines, "[SCOUT_CHECK_MUTED] "@)
}

/// How many reports of an unusable nonce the log holds.
pub open spec fn errors(monitor: MonitorView) -> nat {
    count_tagged(monitor.lines, "[SCOUT_CHECK_ERROR] INVALID "@)
}

/// How many sessions the log opens.
pub open spec fn sessions(monitor: MonitorView) -> nat {
    count_tagged(monitor.lines, "[SCOUT_CHECK_SESSION] "@)
}

/// How many evaluations the log reports.
pub open spec fn evaluations(monitor: MonitorView) -> nat {
    count_tagged(monitor.lines, "[SCOUT_CHECK_EVALUATED] "@)
}

/// Whether the log is in order: the muting is announced once where it was asked for and never else,
/// an unusable nonce is reported once at most, a session is opened once at most and only with a
/// usable nonce, and nothing is reported as evaluated but in an observing run with one.
pub open spec fn log_in_order(monitor: MonitorView) -> bool {
    &&& announcements(monitor) == if monitor.mute_announced {
        1nat
    } else {
        0
    }
    &&& errors(monitor) == if monitor.error_emitted {
        1nat
    } else {
        0
    }
    &&& sessions(monitor) == if monitor.session_emitted && nonce_of(monitor.run) is Ok {
        1nat
    } else {
        0
    }
    &&& !monitor.observes() || nonce_of(monitor.run) is Err ==> evaluations(monitor) == 0
}

/// The log of a monitor that has said nothing is in order.
pub proof fn law_empty_log_is_in_order(monitor: MonitorView)
    requires
        monitor.lines.len() == 0,
        !monitor.mute_announced,
        !monitor.error_emitted,
        !monitor.session_emitted,
    ensures
        log_in_order(monitor),
{
}

/// The tags tell each other apart by their fourteenth or fifteenth character.
proof fn lemma_tags_differ()
    ensures
        "[SCOUT_CHECK_MUTED] "@.len() > 13 && "[SCOUT_CHECK_MUTED] "@[13] == 'M',
        "[SCOUT_CHECK_ERROR] INVALID "@.len() > 14,
        "[SCOUT_CHECK_ERROR] INVALID "@[13] == 'E' && "[SCOUT_CHECK_ERROR] INVALID "@[14] == 'R',
        "[SCOUT_CHECK_SESSION] "@.len() > 13 && "[SCOUT_CHECK_SESSION] "@[13] == 'S',
        "[SCOUT_CHECK_EVALUATED] "@.len() > 14,
        "[SCOUT_CHECK_EVALUATED] "@[13] == 'E' && "[SCOUT_CHECK_EVALUATED] "@[14] == 'V',
        "[SCOUT_CHECK_WOULD_VIOLATE] "@.len() > 13 && "[SCOUT_CHECK_WOULD_VIOLATE] "@[13] == 'W',
{
    reveal_strlit("[SCOUT_CHECK_MUTED] ");
    reveal_strlit("[SCOUT_CHECK_ERROR] INVALID ");
    reveal_strlit("[SCOUT_CHECK_SESSION] ");
    reveal_strlit("[SCOUT_CHECK_EVALUATED] ");
    reveal_strlit("[SCOUT_CHECK_WOULD_VIOLATE] ");
}

/// The counts after one more line.
proof fn lemma_say(monitor: MonitorView, tag: Seq<char>, rest: Seq<char>)
    requires
        tag == "[SCOUT_CHECK_MUTED] "@ || tag == "[SCOUT_CHECK_ERROR] INVALID "@ || tag
            == "[SCOUT_CHECK_SESSION] "@ || tag == "[SCOUT_CHECK_EVALUATED] "@ || tag
            == "[SCOUT_CHECK_WOULD_VIOLATE] "@,
    ensures
        ({
            let after = monitor.say(tag + rest);
            &&& announcements(after) == announcements(monitor) + if tag
                == "[SCOUT_CHECK_MUTED] "@ {
                1nat
            } else {
                0
            }
            &&& errors(after) == errors(monitor) + if tag == "[SCOUT_CHECK_ERROR] INVALID "@ {
                1nat
            } else {
                0
            }
            &&& sessions(after) == sessions(monitor) + if tag == "[SCOUT_CHECK_SESSION] "@ {
                1nat
            } else {
                0
            }
            &&& evaluations(after) == evaluations(monitor) + if tag
                == "[SCOUT_CHECK_EVALUATED] "@ {
                1nat
            } else {
                0
            }
        }),
{
    let muted = "[SCOUT_CHECK_MUTED] "@;
    let error = "[SCOUT_CHECK_ERROR] INVALID "@;
    let session = "[SCOUT_CHECK_SESSION] "@;
    let evaluated = "[SCOUT_CHECK_EVALUATED] "@;
    lemma_tags_differ();
    let line = tag + rest;
    lemma_count_push(monitor.lines, line, muted);
    lemma_count_push(monitor.lines, line, error);
    lemma_count_push(monitor.lines, line, session);
    lemma_count_push(monitor.lines, line, evaluated);
    lemma_tagged(tag, rest, muted, 13);
    lemma_tagged(tag, rest, error, 13);
    lemma_tagged(tag, rest, error, 14);
    lemma_tagged(tag, rest, session, 13);
    lemma_tagged(tag, rest, evaluated, 13);
    lemma_tagged(tag, rest, evaluated, 14);
}

/// Asking for a property keeps the log in order.
proof fn lemma_asked_in_order(monitor: MonitorView, property: Seq<char>)
    requires
        log_in_order(monitor),
    ensures
        log_in_order(monitor.asked(property)),
{
    lemma_tags_differ();
    if monitor.mutes(property) && !monitor.mute_announced {
        lemma_say(monitor, "[SCOUT_CHECK_MUTED] "@, monitor.mute->0);
    }
}

/// Reporting an unusable nonce keeps the log in order.
proof fn lemma_error_in_order(monitor: MonitorView, reason: Seq<char>)
    requires
        log_in_order(monitor),
    ensures
        log_in_order(monitor.emit_error(reason)),
{
    lemma_tags_differ();
    if !monitor.error_emitted {
        lemma_say(monitor, "[SCOUT_CHECK_ERROR] INVALID "@, reason);
    }
}

/// The log stays in order: whatever is checked, the muting is announced exactly once, a session is
/// opened at most once, and no run without a usable nonce ever reports an evaluation.
pub proof fn law_log_stays_in_order(
    monitor: MonitorView,
    property: Seq<char>,
    site: Seq<char>,
    place: Seq<char>,
    holds: bool,
    message: Seq<char>,
)
    requires
        log_in_order(monitor),
    ensures
        log_in_order(monitor.asked(property)),
        log_in_order(monitor.open_session()),
        log_in_order(monitor.checked(property, site, place, holds, message)),
{
    lemma_tags_differ();
    lemma_asked_in_order(monitor, property);
    if monitor.observes() && !monitor.session_emitted {
        match nonce_of(monitor.run) {
            Ok(nonce) => {
                let opened = MonitorView { session_emitted: true, ..monitor };
                lemma_say(opened, "[SCOUT_CHECK_SESSION] "@, nonce);
            },
            Err(reason) => {
                let opened = MonitorView { session_emitted: true, ..monitor };
                lemma_error_in_order(opened, reason);
            },
        }
    }
    let asked = monitor.asked(property);
    if monitor.selects(property) && monitor.observes() {
        match nonce_of(monitor.run) {
            Ok(nonce) => {
                let rest = nonce + " "@ + property + " "@ + site + " "@ + place;
                let evaluated = "[SCOUT_CHECK_EVALUATED] "@;
                let violated = "[SCOUT_CHECK_WOULD_VIOLATE] "@;
                assert(marker(evaluated, nonce, property, site, place) =~= evaluated + rest);
                assert(marker(violated, nonce, property, site, place) =~= violated + rest);
                lemma_say(asked, evaluated, rest);
                lemma_say(asked.say(evaluated + rest), violated, rest);
            },
            Err(reason) => {
                lemma_error_in_order(asked, reason);
            },
        }
    }
}

/// A log that was in order before every property was checked is in order afterwards.
pub proof fn law_whole_log_stays_in_order(
    f: OnreappFixture,
    monitor: MonitorView,
    places: Places<'_>,
)
    requires
        log_in_order(monitor),
    ensures
        log_in_order(all_played(f, monitor, places)),
{
    law_log_stays_in_order(monitor, "P-0002"@, ""@, ""@, true, ""@);
    lemma_order_in_order(
        monitor.open_session(),
        places,
        seq![vault_verdict(f)],
        seq![aggregate_verdict(f)],
        seq![supply_verdict(f)],
        legs_verdicts(f),
        fee_verdicts(f),
        seq![fee_vault_verdict(f)],
    );
}

/// Playing a property keeps the log in order.
proof fn lemma_played_log(
    monitor: MonitorView,
    property: Seq<char>,
    site: Seq<char>,
    place: Seq<char>,
    verdicts: Seq<Option<Verdict>>,
)
    requires
        log_in_order(monitor),
    ensures
        log_in_order(played(monitor, property, site, place, verdicts)),
{
    reveal(played);
    law_log_stays_in_order(monitor, property, site, place, true, ""@);
    lemma_reported_log(monitor.asked(property), property, site, place, verdicts);
}

/// Reporting verdicts keeps the log in order.
proof fn lemma_reported_log(
    monitor: MonitorView,
    property: Seq<char>,
    site: Seq<char>,
    place: Seq<char>,
    verdicts: Seq<Option<Verdict>>,
)
    requires
        log_in_order(monitor),
    ensures
        log_in_order(all_reported(monitor, property, site, place, verdicts)),
    decreases verdicts.len(),
{
    if verdicts.len() > 0 {
        lemma_reported_log(monitor, property, site, place, verdicts.drop_last());
        if let Some(verdict) = verdicts.last() {
            law_log_stays_in_order(
                all_reported(monitor, property, site, place, verdicts.drop_last()),
                property,
                site,
                place,
                verdict.holds,
                verdict.message,
            );
        }
    }
}

/// Playing the properties in order keeps the log in order.
proof fn lemma_order_in_order(
    monitor: MonitorView,
    at: Places<'_>,
    v2: Seq<Option<Verdict>>,
    v3: Seq<Option<Verdict>>,
    v4: Seq<Option<Verdict>>,
    v5: Seq<Option<Verdict>>,
    v6: Seq<Option<Verdict>>,
    v8: Seq<Option<Verdict>>,
)
    requires
        log_in_order(monitor),
    ensures
        log_in_order(played_in_order(monitor, at, v2, v3, v4, v5, v6, v8)),
{
    let p2 = played(monitor, "P-0002"@, "vault-covers-open-redemption-requests"@, at.p_0002@, v2);
    let p3 = played(
        p2,
        "P-0003"@,
        "requested-redemptions-equals-sum-of-open-requests"@,
        at.p_0003@,
        v3,
    );
    let p4 = played(p3, "P-0004"@, "onyc-supply-within-configured-max-supply"@, at.p_0004@, v4);
    let p5 = played(p4, "P-0005"@, "offer-legs-are-distinct-mints"@, at.p_0005@, v5);
    let p6 = played(p5, "P-0006"@, "offer-fee-within-max-allowed-bps"@, at.p_0006@, v6);
    lemma_played_log(monitor, "P-0002"@, "vault-covers-open-redemption-requests"@, at.p_0002@, v2);
    lemma_played_log(
        p2,
        "P-0003"@,
        "requested-redemptions-equals-sum-of-open-requests"@,
        at.p_0003@,
        v3,
    );
    lemma_played_log(p3, "P-0004"@, "onyc-supply-within-configured-max-supply"@, at.p_0004@, v4);
    lemma_played_log(p4, "P-0005"@, "offer-legs-are-distinct-mints"@, at.p_0005@, v5);
    lemma_played_log(p5, "P-0006"@, "offer-fee-within-max-allowed-bps"@, at.p_0006@, v6);
    lemma_played_log(
        p6,
        "P-0008"@,
        "fee-mint-redemption-vault-covers-open-claims"@,
        at.p_0008@,
        v8,
    );
}

} // verus!
