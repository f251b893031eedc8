//! The shortcut registry: turns the configured bindings into the ordered
//! list of chords to register with the host OS, and folds the per-binding
//! registration outcomes into the active dispatch table and the
//! human-readable registration report.
//!
//! Planning enumerates the nine overlay-action bindings in a fixed order and
//! then the agent bindings in configuration order; a binding that is absent
//! or fails to parse is skipped. Registration failures are non-fatal: a
//! rejected chord is excluded from the active set and from the report, and
//! every other binding is unaffected.

use vstd::prelude::*;
use vstd::string::StringExecFns;

use crate::config::ShortcutConfigV;
use crate::config::UnifiedShortcutConfig;
use crate::grammar::Chord;
use crate::grammar::chord_of;
use crate::grammar::parse;

verus! {

/// The closed set of actions a registered shortcut can fire.
pub enum Action {
    OverlayToggle,
    OverlayMoveUp,
    OverlayMoveDown,
    OverlayMoveLeft,
    OverlayMoveRight,
    OverlayResizeUp,
    OverlayResizeDown,
    OverlayResizeLeft,
    OverlayResizeRight,
    AgentToggle(String),
}

/// The mathematical value of an `Action`.
#[verifier::ext_equal]
pub ghost enum ActionV {
    OverlayToggle,
    OverlayMoveUp,
    OverlayMoveDown,
    OverlayMoveLeft,
    OverlayMoveRight,
    OverlayResizeUp,
    OverlayResizeDown,
    OverlayResizeLeft,
    OverlayResizeRight,
    AgentToggle(Seq<char>),
}

impl DeepView for Action {
    type V = ActionV;

    open spec fn deep_view(&self) -> ActionV {
        match self {
            Action::OverlayToggle => ActionV::OverlayToggle,
            Action::OverlayMoveUp => ActionV::OverlayMoveUp,
            Action::OverlayMoveDown => ActionV::OverlayMoveDown,
            Action::OverlayMoveLeft => ActionV::OverlayMoveLeft,
            Action::OverlayMoveRight => ActionV::OverlayMoveRight,
            Action::OverlayResizeUp => ActionV::OverlayResizeUp,
            Action::OverlayResizeDown => ActionV::OverlayResizeDown,
            Action::OverlayResizeLeft => ActionV::OverlayResizeLeft,
            Action::OverlayResizeRight => ActionV::OverlayResizeRight,
            Action::AgentToggle(id) => ActionV::AgentToggle(id@),
        }
    }
}

impl Clone for Action {
    fn clone(&self) -> (r: Self)
        ensures
            r.deep_view() == self.deep_view(),
    {
        match self {
            Action::OverlayToggle => Action::OverlayToggle,
            Action::OverlayMoveUp => Action::OverlayMoveUp,
            Action::OverlayMoveDown => Action::OverlayMoveDown,
            Action::OverlayMoveLeft => Action::OverlayMoveLeft,
            Action::OverlayMoveRight => Action::OverlayMoveRight,
            Action::OverlayResizeUp => Action::OverlayResizeUp,
            Action::OverlayResizeDown => Action::OverlayResizeDown,
            Action::OverlayResizeLeft => Action::OverlayResizeLeft,
            Action::OverlayResizeRight => Action::OverlayResizeRight,
            Action::AgentToggle(id) => Action::AgentToggle(id.clone()),
        }
    }
}

/// One binding accepted at planning time: the parsed chord, the string it
/// came from, and the action it fires. Produced once at startup and
/// immutable for the process lifetime.
pub struct RegisteredShortcut {
    pub chord: Chord,
    pub original_string: String,
    pub action: Action,
}

/// The mathematical value of a `RegisteredShortcut`.
#[verifier::ext_equal]
pub ghost struct RegisteredShortcutV {
    pub chord: Chord,
    pub original_string: Seq<char>,
    pub action: ActionV,
}

impl DeepView for RegisteredShortcut {
    type V = RegisteredShortcutV;

    open spec fn deep_view(&self) -> RegisteredShortcutV {
        RegisteredShortcutV {
            chord: self.chord,
            original_string: self.original_string@,
            action: self.action.deep_view(),
        }
    }
}

/// The candidate entries one optional binding contributes: one entry if the
/// binding is present and parses, none otherwise.
pub open spec fn binding_candidates(o: Option<Seq<char>>, a: ActionV) -> Seq<RegisteredShortcutV> {
    match o {
        Some(s) => match chord_of(s) {
            Some(ch) => seq![
                RegisteredShortcutV { chord: ch, original_string: s, action: a },
            ],
            None => Seq::empty(),
        },
        None => Seq::empty(),
    }
}

/// The candidate entries of the agent bindings, in configuration order.
pub open spec fn agent_candidates(pairs: Seq<(Seq<char>, Seq<char>)>) -> Seq<RegisteredShortcutV>
    decreases pairs.len(),
{
    if pairs.len() == 0 {
        Seq::empty()
    } else {
        agent_candidates(pairs.drop_last()) + binding_candidates(
            Some(pairs.last().1),
            ActionV::AgentToggle(pairs.last().0),
        )
    }
}

/// Everything the registry will try to register, in order: the nine overlay
/// bindings in their fixed order, then the agent bindings.
pub open spec fn planned_registrations(c: ShortcutConfigV) -> Seq<RegisteredShortcutV> {
    binding_candidates(c.overlay_toggle, ActionV::OverlayToggle) + binding_candidates(
        c.overlay_move_up,
        ActionV::OverlayMoveUp,
    ) + binding_candidates(c.overlay_move_down, ActionV::OverlayMoveDown) + binding_candidates(
        c.overlay_move_left,
        ActionV::OverlayMoveLeft,
    ) + binding_candidates(c.overlay_move_right, ActionV::OverlayMoveRight) + binding_candidates(
        c.overlay_resize_up,
        ActionV::OverlayResizeUp,
    ) + binding_candidates(c.overlay_resize_down, ActionV::OverlayResizeDown)
        + binding_candidates(c.overlay_resize_left, ActionV::OverlayResizeLeft)
        + binding_candidates(c.overlay_resize_right, ActionV::OverlayResizeRight)
        + agent_candidates(c.agent_shortcuts)
}

/// Appends the candidate entry of one overlay binding, if any.
fn push_binding(out: &mut Vec<RegisteredShortcut>, binding: &Option<String>, action: Action)
    ensures
        final(out).deep_view() == old(out).deep_view() + binding_candidates(
            binding.deep_view(),
            action.deep_view(),
        ),
{
    let ghost before = old(out).deep_view();
    match binding {
        Some(s) => {
            match parse(s.as_str()) {
                Some(ch) => {
                    out.push(
                        RegisteredShortcut {
                            chord: ch,
                            original_string: s.clone(),
                            action,
                        },
                    );
                    proof {
                        assert(out.deep_view() =~~= before + binding_candidates(
                            binding.deep_view(),
                            action.deep_view(),
                        ));
                    }
                },
                None => {
                    proof {
                        assert(out.deep_view() =~~= before + binding_candidates(
                            binding.deep_view(),
                            action.deep_view(),
                        ));
                    }
                },
            }
        },
        None => {
            proof {
                assert(out.deep_view() =~~= before + binding_candidates(
                    binding.deep_view(),
                    action.deep_view(),
                ));
            }
        },
    }
}

/// Plans the startup registrations for a configuration: every present,
/// successfully parsed binding, in the registry's fixed order.
pub fn plan_registrations(config: &UnifiedShortcutConfig) -> (r: Vec<RegisteredShortcut>)
    ensures
        r.deep_view() == planned_registrations(config@),
{
    let mut out: Vec<RegisteredShortcut> = Vec::new();
    proof {
        assert(out.deep_view() =~~= Seq::<RegisteredShortcutV>::empty());
    }
    push_binding(&mut out, &config.overlay_toggle, Action::OverlayToggle);
    push_binding(&mut out, &config.overlay_move_up, Action::OverlayMoveUp);
    push_binding(&mut out, &config.overlay_move_down, Action::OverlayMoveDown);
    push_binding(&mut out, &config.overlay_move_left, Action::OverlayMoveLeft);
    push_binding(&mut out, &config.overlay_move_right, Action::OverlayMoveRight);
    push_binding(&mut out, &config.overlay_resize_up, Action::OverlayResizeUp);
    push_binding(&mut out, &config.overlay_resize_down, Action::OverlayResizeDown);
    push_binding(&mut out, &config.overlay_resize_left, Action::OverlayResizeLeft);
    push_binding(&mut out, &config.overlay_resize_right, Action::OverlayResizeRight);
    let ghost overlay_part = out.deep_view();
    let pairs = &config.agent_shortcuts;
    let mut i: usize = 0;
    while i < pairs.len()
        invariant
            i <= pairs@.len(),
            out.deep_view() == overlay_part + agent_candidates(
                pairs.deep_view().subrange(0, i as int),
            ),
        decreases pairs@.len() - i,
    {
        let pair = &pairs[i];
        proof {
            assert(pairs.deep_view().subrange(0, i + 1 as int).drop_last() =~~= pairs.deep_view()
                .subrange(0, i as int));
            assert(pairs.deep_view().subrange(0, i + 1 as int).last() == pairs.deep_view()[
                i as int]);
        }
        let ghost before = out.deep_view();
        proof {
            assert(pairs.deep_view()[i as int] == (pair.0@, pair.1@));
            assert(agent_candidates(pairs.deep_view().subrange(0, i + 1 as int))
                == agent_candidates(pairs.deep_view().subrange(0, i as int)) + binding_candidates(
                Some(pair.1@),
                ActionV::AgentToggle(pair.0@),
            ));
        }
        match parse(pair.1.as_str()) {
            Some(ch) => {
                out.push(
                    RegisteredShortcut {
                        chord: ch,
                        original_string: pair.1.clone(),
                        action: Action::AgentToggle(pair.0.clone()),
                    },
                );
                proof {
                    assert(binding_candidates(Some(pair.1@), ActionV::AgentToggle(pair.0@)) =~~=
                        seq![
                            RegisteredShortcutV {
                                chord: ch,
                                original_string: pair.1@,
                                action: ActionV::AgentToggle(pair.0@),
                            },
                        ]);
                    assert(out.deep_view() =~~= before.push(
                        RegisteredShortcutV {
                            chord: ch,
                            original_string: pair.1@,
                            action: ActionV::AgentToggle(pair.0@),
                        },
                    ));
                    assert(out.deep_view() =~~= overlay_part + agent_candidates(
                        pairs.deep_view().subrange(0, i + 1 as int),
                    ));
                }
            },
            None => {
                proof {
                    assert(out.deep_view() =~~= overlay_part + agent_candidates(
                        pairs.deep_view().subrange(0, i + 1 as int),
                    ));
                }
            },
        }
        i = i + 1;
    }
    proof {
        assert(pairs.deep_view().subrange(0, pairs@.len() as int) =~~= pairs.deep_view());
        assert(out.deep_view() =~~= planned_registrations(config@));
    }
    out
}

/// The human-readable description of an action, as it appears in the
/// registration report.
pub open spec fn description_of(a: ActionV) -> Seq<char> {
    match a {
        ActionV::OverlayToggle => "overlay toggle"@,
        ActionV::OverlayMoveUp => "overlay move up"@,
        ActionV::OverlayMoveDown => "overlay move down"@,
        ActionV::OverlayMoveLeft => "overlay move left"@,
        ActionV::OverlayMoveRight => "overlay move right"@,
        ActionV::OverlayResizeUp => "overlay resize up"@,
        ActionV::OverlayResizeDown => "overlay resize down"@,
        ActionV::OverlayResizeLeft => "overlay resize left"@,
        ActionV::OverlayResizeRight => "overlay resize right"@,
        ActionV::AgentToggle(id) => "toggle agent "@ + id,
    }
}

/// One line of the registration report.
pub open spec fn report_line(r: RegisteredShortcutV) -> Seq<char> {
    r.original_string + " -> "@ + description_of(r.action)
}

/// Returns the description of an action.
fn describe_action(a: &Action) -> (r: String)
    ensures
        r@ == description_of(a.deep_view()),
{
    match a {
        Action::OverlayToggle => String::from_str("overlay toggle"),
        Action::OverlayMoveUp => String::from_str("overlay move up"),
        Action::OverlayMoveDown => String::from_str("overlay move down"),
        Action::OverlayMoveLeft => String::from_str("overlay move left"),
        Action::OverlayMoveRight => String::from_str("overlay move right"),
        Action::OverlayResizeUp => String::from_str("overlay resize up"),
        Action::OverlayResizeDown => String::from_str("overlay resize down"),
        Action::OverlayResizeLeft => String::from_str("overlay resize left"),
        Action::OverlayResizeRight => String::from_str("overlay resize right"),
        Action::AgentToggle(id) => String::from_str("toggle agent ").concat(id.as_str()),
    }
}

/// Builds the report line for one registered binding.
fn line_for(rs: &RegisteredShortcut) -> (r: String)
    ensures
        r@ == report_line(rs.deep_view()),
{
    let d = describe_action(&rs.action);
    let r = rs.original_string.clone().concat(" -> ").concat(d.as_str());
    proof {
        assert(r@ =~= report_line(rs.deep_view()));
    }
    r
}

/// The entries whose registration succeeded, order preserved.
pub open spec fn kept(planned: Seq<RegisteredShortcutV>, ok: Seq<bool>) -> Seq<RegisteredShortcutV>
    decreases planned.len(),
{
    if planned.len() == 0 {
        Seq::empty()
    } else {
        let rest = kept(planned.drop_last(), ok.drop_last());
        if ok.last() {
            rest.push(planned.last())
        } else {
            rest
        }
    }
}

/// Folds per-binding OS registration outcomes into the active dispatch table
/// and the report: an entry is active, and reported, exactly when its
/// registration succeeded; a failed registration drops only that entry.
pub fn apply_registration_outcomes(planned: &Vec<RegisteredShortcut>, outcomes: &Vec<bool>) -> (r: (
    Vec<RegisteredShortcut>,
    Vec<String>,
))
    requires
        planned@.len() == outcomes@.len(),
    ensures
        r.0.deep_view() == kept(planned.deep_view(), outcomes@),
        r.1.deep_view() == kept(planned.deep_view(), outcomes@).map_values(
            |e: RegisteredShortcutV| report_line(e),
        ),
{
    let mut active: Vec<RegisteredShortcut> = Vec::new();
    let mut report: Vec<String> = Vec::new();
    let mut i: usize = 0;
    proof {
        assert(active.deep_view() =~~= kept(
            planned.deep_view().subrange(0, 0),
            outcomes@.subrange(0, 0),
        ));
        assert(report.deep_view() =~~= kept(
            planned.deep_view().subrange(0, 0),
            outcomes@.subrange(0, 0),
        ).map_values(|e: RegisteredShortcutV| report_line(e)));
    }
    while i < planned.len()
        invariant
            i <= planned@.len(),
            planned@.len() == outcomes@.len(),
            active.deep_view() == kept(
                planned.deep_view().subrange(0, i as int),
                outcomes@.subrange(0, i as int),
            ),
            report.deep_view() == kept(
                planned.deep_view().subrange(0, i as int),
                outcomes@.subrange(0, i as int),
            ).map_values(|e: RegisteredShortcutV| report_line(e)),
        decreases planned@.len() - i,
    {
        proof {
            assert(planned.deep_view().subrange(0, i + 1 as int).drop_last() =~~= planned
                .deep_view().subrange(0, i as int));
            assert(outcomes@.subrange(0, i + 1 as int).drop_last() =~= outcomes@.subrange(
                0,
                i as int,
            ));
            assert(planned.deep_view().subrange(0, i + 1 as int).last() == planned.deep_view()[
                i as int]);
        }
        if outcomes[i] {
            let entry = &planned[i];
            let line = line_for(entry);
            active.push(
                RegisteredShortcut {
                    chord: entry.chord,
                    original_string: entry.original_string.clone(),
                    action: entry.action.clone(),
                },
            );
            report.push(line);
            proof {
                let prev_kept = kept(
                    planned.deep_view().subrange(0, i as int),
                    outcomes@.subrange(0, i as int),
                );
                let entry_v = planned.deep_view()[i as int];
                assert(kept(
                    planned.deep_view().subrange(0, i + 1 as int),
                    outcomes@.subrange(0, i + 1 as int),
                ) == prev_kept.push(entry_v));
                assert(active.deep_view() =~~= kept(
                    planned.deep_view().subrange(0, i + 1 as int),
                    outcomes@.subrange(0, i + 1 as int),
                ));
                assert(prev_kept.push(entry_v).map_values(|e: RegisteredShortcutV| report_line(e))
                    =~~= prev_kept.map_values(|e: RegisteredShortcutV| report_line(e)).push(
                    report_line(entry_v),
                ));
                assert(report.deep_view() =~~= kept(
                    planned.deep_view().subrange(0, i + 1 as int),
                    outcomes@.subrange(0, i + 1 as int),
                ).map_values(|e: RegisteredShortcutV| report_line(e)));
            }
        } else {
            proof {
                assert(active.deep_view() =~~= kept(
                    planned.deep_view().subrange(0, i + 1 as int),
                    outcomes@.subrange(0, i + 1 as int),
                ));
                assert(report.deep_view() =~~= kept(
                    planned.deep_view().subrange(0, i + 1 as int),
                    outcomes@.subrange(0, i + 1 as int),
                ).map_values(|e: RegisteredShortcutV| report_line(e)));
            }
        }
        i = i + 1;
    }
    proof {
        assert(planned.deep_view().subrange(0, planned@.len() as int) =~~= planned.deep_view());
        assert(outcomes@.subrange(0, outcomes@.len() as int) =~= outcomes@);
    }
    (active, report)
}

} // verus!
