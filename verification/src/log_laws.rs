//! What holds of the log, line by line: what each check says, in which order, and what decides
//! whether it is made at all.

use vstd::prelude::*;

use crate::check::{marker, nonce_of, MonitorView};
use crate::fixture::OnreappFixture;
use crate::invariants::{
    aggregate_verdict, all_played, all_reported, fee_vault_verdict, fee_verdicts, legs_verdicts,
    played, supply_verdict, vault_verdict, Places, Verdict,
};
use crate::text::names;

verus! {

// ---- what is checked ----

/// A property is checked exactly where the list of muted properties does not name it and the one
/// selected, if any, is that property.
pub proof fn law_selection_is_by_name(monitor: MonitorView, property: Seq<char>)
    ensures
        monitor.mute is None && monitor.only is None ==> monitor.selects(property),
        monitor.mute matches Some(list) && names(list, property) ==> !monitor.selects(property),
        monitor.only matches Some(one) && one != property ==> !monitor.selects(property),
        monitor.mute is None && monitor.only == Some(property) ==> monitor.selects(property),
        monitor.mute matches Some(list) && !names(list, property) && monitor.only is None
            ==> monitor.selects(property),
        monitor.mute matches Some(list) && !names(list, property) && monitor.only == Some(property)
            ==> monitor.selects(property),
        monitor.mutes(property) <==> (monitor.mute matches Some(list) && names(list, property)),
{
}

/// A run observes exactly where its mode is that word, letter for letter.
pub proof fn law_observing_is_asked_for(monitor: MonitorView)
    ensures
        monitor.observes() <==> monitor.mode == Some(
            seq!['o', 'b', 's', 'e', 'r', 'v', 'e'],
        ),
{
    reveal_strlit("observe");
    assert("observe"@ =~= seq!['o', 'b', 's', 'e', 'r', 'v', 'e']);
}

/// Asking for a property says nothing unless it is muted and that was not said before; then it says
/// so once, with the whole list.
pub proof fn law_asking_says_the_muting_once(monitor: MonitorView, property: Seq<char>)
    ensures
        !monitor.mutes(property) || monitor.mute_announced ==> monitor.asked(property) == monitor,
        monitor.mutes(property) && !monitor.mute_announced ==> monitor.asked(property) == (
        MonitorView {
            lines: monitor.lines.push("[SCOUT_CHECK_MUTED] "@ + monitor.mute->0),
            mute_announced: true,
            ..monitor
        }),
        monitor.asked(property).asked(property) == monitor.asked(property),
{
}

// ---- nonces ----

/// Whether a character is a letter or a digit of ASCII, an underscore, a dot, a colon or a hyphen.
pub open spec fn plain_char(c: char) -> bool {
    ||| 48 <= c as int <= 57
    ||| 65 <= c as int <= 90
    ||| 97 <= c as int <= 122
    ||| c as int == 95
    ||| c as int == 46
    ||| c as int == 58
    ||| c as int == 45
}

/// A nonce is usable exactly where it is given, is not empty and is plain throughout; it is then
/// taken as it stands. Of the reasons, the first that applies is given.
pub proof fn law_nonce_is_taken_as_it_stands(run: Option<Seq<char>>)
    ensures
        run is None ==> nonce_of(run) == Err::<Seq<char>, Seq<char>>(
            "missing or non-Unicode SCOUT_CHECK_RUN"@,
        ),
        run matches Some(nonce) ==> {
            let plain = forall|i: int| 0 <= i < nonce.len() ==> plain_char(#[trigger] nonce[i]);
            &&& nonce.len() == 0 ==> nonce_of(run) == Err::<Seq<char>, Seq<char>>(
                "empty SCOUT_CHECK_RUN"@,
            )
            &&& nonce.len() > 0 && plain ==> nonce_of(run) == Ok::<Seq<char>, Seq<char>>(nonce)
            &&& nonce.len() > 0 && !plain ==> nonce_of(run) == Err::<Seq<char>, Seq<char>>(
                "SCOUT_CHECK_RUN contains unsafe characters"@,
            )
        },
{
}

// ---- sessions ----

/// An enforcing run opens no session. An observing one opens its session once: with a usable nonce
/// it says it, and without one it reports the reason, unless it has reported one before.
pub proof fn law_session_is_opened_once(monitor: MonitorView)
    ensures
        !monitor.observes() || monitor.session_emitted ==> monitor.open_session() == monitor,
        monitor.observes() && !monitor.session_emitted ==> {
            &&& nonce_of(monitor.run) matches Ok(nonce) ==> monitor.open_session() == (MonitorView {
                lines: monitor.lines.push("[SCOUT_CHECK_SESSION] "@ + nonce),
                session_emitted: true,
                ..monitor
            })
            &&& nonce_of(monitor.run) matches Err(reason) ==> if monitor.error_emitted {
                monitor.open_session() == (MonitorView { session_emitted: true, ..monitor })
            } else {
                monitor.open_session() == (MonitorView {
                    lines: monitor.lines.push("[SCOUT_CHECK_ERROR] INVALID "@ + reason),
                    session_emitted: true,
                    error_emitted: true,
                    ..monitor
                })
            }
        },
        monitor.open_session().open_session() == monitor.open_session(),
{
}

// ---- one check ----

/// A line of the log about one check: the tag, the nonce, the property, the site and the place,
/// with a space between any two.
pub open spec fn line(
    tag: Seq<char>,
    nonce: Seq<char>,
    property: Seq<char>,
    site: Seq<char>,
    place: Seq<char>,
) -> Seq<char> {
    tag + (nonce + (" "@ + (property + (" "@ + (site + (" "@ + place))))))
}

/// What is said of a check where it is observed: that it was evaluated, and behind that, where it
/// does not hold, that it would be violated.
pub open spec fn said(
    nonce: Seq<char>,
    property: Seq<char>,
    site: Seq<char>,
    place: Seq<char>,
    holds: bool,
) -> Seq<Seq<char>> {
    let evaluated = line("[SCOUT_CHECK_EVALUATED] "@, nonce, property, site, place);
    if holds {
        seq![evaluated]
    } else {
        seq![evaluated, line("[SCOUT_CHECK_WOULD_VIOLATE] "@, nonce, property, site, place)]
    }
}

/// A marker is made of its parts.
proof fn lemma_marker(
    tag: Seq<char>,
    nonce: Seq<char>,
    property: Seq<char>,
    site: Seq<char>,
    place: Seq<char>,
)
    ensures
        marker(tag, nonce, property, site, place) == line(tag, nonce, property, site, place),
{
    assert(marker(tag, nonce, property, site, place) =~= line(tag, nonce, property, site, place));
}

/// A check that is made, in each of the two modes. An enforcing run records the message where the
/// property does not hold, and says nothing. An observing run with a usable nonce says that the
/// property was evaluated and, where it does not hold, that it would be violated, and records
/// nothing. One without reports the reason, once.
pub proof fn law_check_does_what_its_mode_says(
    monitor: MonitorView,
    property: Seq<char>,
    site: Seq<char>,
    place: Seq<char>,
    holds: bool,
    message: Seq<char>,
)
    requires
        monitor.selects(property),
    ensures
        ({
            let after = monitor.checked(property, site, place, holds, message);
            &&& !monitor.observes() && holds ==> after == monitor
            &&& !monitor.observes() && !holds ==> after == (MonitorView {
                violations: monitor.violations.push(message),
                ..monitor
            })
            &&& monitor.observes() ==> (nonce_of(monitor.run) matches Ok(nonce) ==> after == (
            MonitorView {
                lines: monitor.lines + said(nonce, property, site, place, holds),
                ..monitor
            }))
            &&& monitor.observes() ==> (nonce_of(monitor.run) matches Err(reason) ==> after
                == monitor.emit_error(reason))
        }),
        !monitor.observes() ==> monitor.answer(property, holds) == holds,
        monitor.observes() && nonce_of(monitor.run) is Ok ==> monitor.answer(property, holds)
            == holds,
        monitor.observes() && nonce_of(monitor.run) is Err ==> !monitor.answer(property, holds),
{
    if let Ok(nonce) = nonce_of(monitor.run) {
        lemma_marker("[SCOUT_CHECK_EVALUATED] "@, nonce, property, site, place);
        lemma_marker("[SCOUT_CHECK_WOULD_VIOLATE] "@, nonce, property, site, place);
        if monitor.observes() {
            let after = monitor.checked(property, site, place, holds, message);
            assert(after.lines =~= monitor.lines + said(nonce, property, site, place, holds));
        }
    }
}

/// A check that is not made answers that its property holds, and leaves no trace but that the
/// muting is announced where it is muted.
pub proof fn law_check_that_is_not_made(
    monitor: MonitorView,
    property: Seq<char>,
    site: Seq<char>,
    place: Seq<char>,
    holds: bool,
    message: Seq<char>,
)
    requires
        !monitor.selects(property),
    ensures
        monitor.answer(property, holds),
        monitor.checked(property, site, place, holds, message) == monitor.asked(property),
{
}

/// An unusable nonce is reported once.
pub proof fn law_error_is_reported_once(monitor: MonitorView, reason: Seq<char>, other: Seq<char>)
    ensures
        monitor.error_emitted ==> monitor.emit_error(reason) == monitor,
        !monitor.error_emitted ==> monitor.emit_error(reason) == (MonitorView {
            lines: monitor.lines.push("[SCOUT_CHECK_ERROR] INVALID "@ + reason),
            error_emitted: true,
            ..monitor
        }),
        monitor.emit_error(reason).emit_error(other) == monitor.emit_error(reason),
{
}

/// A property that is not selected is asked for and no more: its verdicts are not even looked at.
pub proof fn law_unselected_property_is_asked_for_alone(
    monitor: MonitorView,
    property: Seq<char>,
    site: Seq<char>,
    place: Seq<char>,
    verdicts: Seq<Option<Verdict>>,
)
    requires
        !monitor.selects(property),
    ensures
        played(monitor, property, site, place, verdicts) == monitor.asked(property),
{
    reveal(played);
}

// ---- all of them ----

/// What is said of some verdicts of a property, in order.
pub open spec fn all_said(
    nonce: Seq<char>,
    property: Seq<char>,
    site: Seq<char>,
    place: Seq<char>,
    verdicts: Seq<Option<Verdict>>,
) -> Seq<Seq<char>>
    decreases verdicts.len(),
{
    if verdicts.len() == 0 {
        Seq::empty()
    } else {
        all_said(nonce, property, site, place, verdicts.drop_last()) + match verdicts.last() {
            Some(verdict) => said(nonce, property, site, place, verdict.holds),
            None => Seq::empty(),
        }
    }
}

/// Reporting the verdicts of a property that is observed says what there is to say.
proof fn lemma_all_said(
    monitor: MonitorView,
    nonce: Seq<char>,
    property: Seq<char>,
    site: Seq<char>,
    place: Seq<char>,
    verdicts: Seq<Option<Verdict>>,
)
    requires
        monitor.observes(),
        monitor.selects(property),
        nonce_of(monitor.run) == Ok::<Seq<char>, Seq<char>>(nonce),
    ensures
        all_reported(monitor, property, site, place, verdicts) == (MonitorView {
            lines: monitor.lines + all_said(nonce, property, site, place, verdicts),
            ..monitor
        }),
    decreases verdicts.len(),
{
    if verdicts.len() == 0 {
        assert(monitor.lines + Seq::<Seq<char>>::empty() =~= monitor.lines);
    } else {
        let earlier = verdicts.drop_last();
        lemma_all_said(monitor, nonce, property, site, place, earlier);
        let before = all_reported(monitor, property, site, place, earlier);
        let all = all_said(nonce, property, site, place, verdicts);
        match verdicts.last() {
            Some(verdict) => {
                law_check_does_what_its_mode_says(
                    before,
                    property,
                    site,
                    place,
                    verdict.holds,
                    verdict.message,
                );
                assert(before.lines + said(nonce, property, site, place, verdict.holds)
                    =~= monitor.lines + all);
            },
            None => {
                assert(before.lines =~= monitor.lines + all);
            },
        }
    }
}

/// What an observing run says of a property: what there is to say where it is the one selected or
/// none is, and nothing elsewhere.
pub open spec fn said_of(
    monitor: MonitorView,
    nonce: Seq<char>,
    property: Seq<char>,
    site: Seq<char>,
    place: Seq<char>,
    verdicts: Seq<Option<Verdict>>,
) -> Seq<Seq<char>> {
    if monitor.only is None || monitor.only == Some(property) {
        all_said(nonce, property, site, place, verdicts)
    } else {
        Seq::empty()
    }
}

/// Playing a property in an observing run says what there is to say of it.
proof fn lemma_played_says(
    monitor: MonitorView,
    nonce: Seq<char>,
    property: Seq<char>,
    site: Seq<char>,
    place: Seq<char>,
    verdicts: Seq<Option<Verdict>>,
)
    requires
        monitor.observes(),
        monitor.mute is None,
        nonce_of(monitor.run) == Ok::<Seq<char>, Seq<char>>(nonce),
    ensures
        played(monitor, property, site, place, verdicts) == (MonitorView {
            lines: monitor.lines + said_of(monitor, nonce, property, site, place, verdicts),
            ..monitor
        }),
{
    reveal(played);
    if monitor.selects(property) {
        lemma_all_said(monitor, nonce, property, site, place, verdicts);
    } else {
        assert(monitor.lines + Seq::<Seq<char>>::empty() =~= monitor.lines);
    }
}

/// An observing run with a usable nonce and nothing muted says, behind the opening of its session,
/// of each property in turn whether it was evaluated and would be violated: P-0002, P-0003, P-0004,
/// P-0005 of every offer, P-0006 of every offer, then P-0008, each under the name of its site and
/// at its place. Nothing else changes.
pub proof fn law_observing_run_says_every_verdict(
    f: OnreappFixture,
    monitor: MonitorView,
    places: Places<'_>,
    nonce: Seq<char>,
)
    requires
        monitor.observes(),
        monitor.mute is None,
        nonce_of(monitor.run) == Ok::<Seq<char>, Seq<char>>(nonce),
    ensures
        all_played(f, monitor, places) == (MonitorView {
            lines: monitor.open_session().lines + said_of(
                monitor,
                nonce,
                "P-0002"@,
                "vault-covers-open-redemption-requests"@,
                places.p_0002@,
                seq![vault_verdict(f)],
            ) + said_of(
                monitor,
                nonce,
                "P-0003"@,
                "requested-redemptions-equals-sum-of-open-requests"@,
                places.p_0003@,
                seq![aggregate_verdict(f)],
            ) + said_of(
                monitor,
                nonce,
                "P-0004"@,
                "onyc-supply-within-configured-max-supply"@,
                places.p_0004@,
                seq![supply_verdict(f)],
            ) + said_of(
                monitor,
                nonce,
                "P-0005"@,
                "offer-legs-are-distinct-mints"@,
                places.p_0005@,
                legs_verdicts(f),
            ) + said_of(
                monitor,
                nonce,
                "P-0006"@,
                "offer-fee-within-max-allowed-bps"@,
                places.p_0006@,
                fee_verdicts(f),
            ) + said_of(
                monitor,
                nonce,
                "P-0008"@,
                "fee-mint-redemption-vault-covers-open-claims"@,
                places.p_0008@,
                seq![fee_vault_verdict(f)],
            ),
            ..monitor.open_session()
        }),
{
    let opened = monitor.open_session();
    let v2 = seq![vault_verdict(f)];
    let v3 = seq![aggregate_verdict(f)];
    let v4 = seq![supply_verdict(f)];
    let v5 = legs_verdicts(f);
    let v6 = fee_verdicts(f);
    let v8 = seq![fee_vault_verdict(f)];
    let s2 = "vault-covers-open-redemption-requests"@;
    let s3 = "requested-redemptions-equals-sum-of-open-requests"@;
    let s4 = "onyc-supply-within-configured-max-supply"@;
    let s5 = "offer-legs-are-distinct-mints"@;
    let s6 = "offer-fee-within-max-allowed-bps"@;
    let s8 = "fee-mint-redemption-vault-covers-open-claims"@;
    let p2 = played(opened, "P-0002"@, s2, places.p_0002@, v2);
    let p3 = played(p2, "P-0003"@, s3, places.p_0003@, v3);
    let p4 = played(p3, "P-0004"@, s4, places.p_0004@, v4);
    let p5 = played(p4, "P-0005"@, s5, places.p_0005@, v5);
    let p6 = played(p5, "P-0006"@, s6, places.p_0006@, v6);
    lemma_played_says(opened, nonce, "P-0002"@, s2, places.p_0002@, v2);
    lemma_played_says(p2, nonce, "P-0003"@, s3, places.p_0003@, v3);
    lemma_played_says(p3, nonce, "P-0004"@, s4, places.p_0004@, v4);
    lemma_played_says(p4, nonce, "P-0005"@, s5, places.p_0005@, v5);
    lemma_played_says(p5, nonce, "P-0006"@, s6, places.p_0006@, v6);
    lemma_played_says(p6, nonce, "P-0008"@, s8, places.p_0008@, v8);
}

} // verus!
