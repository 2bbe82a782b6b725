//! The game's rules stated over what goes in and what comes out of each operation:
//! care calls, the evolution matrix, the guessing game, feeding and discipline.
use vstd::prelude::*;

use crate::actions::{
    clean_result, discipline_result, game_result, lights_result, meal_result, medicine_result,
    round_result, snack_result, ActionError, ActionResult, Choice, GameSession,
};
use crate::characters::CharacterStats;
use crate::engine::{
    care_deadline_checked, decayed, discipline_deadline_checked, hatched, hour_of, in_sleep_window,
    minutes_between, not_before, pooped, ticked, woken,
};
use crate::evolution::evolution_step;
use crate::state::{Character, LifeStage, PetState, TeenType};
use crate::time::{in_range, nanos_per_minute, Timestamp};

verus! {

/// A care call follows an empty meter: after a tick of a living, awake pet (not
/// an egg) that had no care call pending and did not evolve in it, a call is
/// pending, due 15 minutes after the tick, exactly where either meter ended at 0;
/// where both still hold a heart, none is.
pub proof fn lemma_empty_meter_opens_a_care_call(s: PetState, now: Timestamp, roll: bool)
    requires
        s.is_alive,
        !s.is_sleeping,
        s.stage != LifeStage::Egg,
        s.pending_care_deadline is None,
        now.well_formed(),
        in_range(now.instant() + 15 * nanos_per_minute()),
        ticked(s, now, roll).stage == s.stage,
    ensures
        ({
            let y = ticked(s, now, roll);
            &&& (y.hunger == 0 || y.happiness == 0) ==> (y.pending_care_deadline matches Some(d)
                && d.instant() == now.instant() + 15 * nanos_per_minute())
            &&& (y.hunger > 0 && y.happiness > 0) ==> y.pending_care_deadline is None
        }),
{
    reveal(ticked);
    now.lemma_later_by_minutes(15);
}

/// The evolution matrix: a teen of age 6 or more grows into an adult chosen by
/// its own character, teen type, care mistakes and discipline mistakes.
/// - Tamatchi Type1 with 0–2 care mistakes: Mametchi with no discipline mistake,
///   Ginjirotchi with one, Maskutchi with more.
/// - Tamatchi Type2: Maskutchi with at most 3 care and at least 2 discipline
///   mistakes; Nyorotchi with at most 2 care and at most 1 discipline mistake.
/// - Otherwise (a careless teen, and every Kuchitamatchi), by discipline
///   mistakes: Kuchipatchi for 0–1, Nyorotchi for 2–3, Tarakotchi for more.
pub proof fn lemma_teen_grows_by_the_matrix(s: PetState, now: Timestamp, t: TeenType)
    requires
        s.stage == LifeStage::Teen,
        s.age >= 6,
        s.teen_type == Some(t),
        s.character == Character::Tamatchi || s.character == Character::Kuchitamatchi,
    ensures
        ({
            let r = evolution_step(s, now).0;
            let c = s.care_mistakes;
            let d = s.discipline_mistakes;
            let tamatchi = s.character == Character::Tamatchi;
            let careless = !tamatchi || (t == TeenType::Type1 && c >= 3) || (t == TeenType::Type2 && c >= 3
                && !(c <= 3 && d >= 2));
            &&& evolution_step(s, now).1
            &&& r.stage == LifeStage::Adult
            &&& r.care_mistakes == c
            &&& r.discipline_mistakes == d
            &&& r.teen_type == Some(t)
            &&& (tamatchi && t == TeenType::Type1 && c <= 2 && d == 0 ==> r.character == Character::Mametchi)
            &&& (tamatchi && t == TeenType::Type1 && c <= 2 && d == 1 ==> r.character
                == Character::Ginjirotchi)
            &&& (tamatchi && t == TeenType::Type1 && c <= 2 && d >= 2 ==> r.character
                == Character::Maskutchi)
            &&& (tamatchi && t == TeenType::Type2 && c <= 3 && d >= 2 ==> r.character
                == Character::Maskutchi)
            &&& (tamatchi && t == TeenType::Type2 && c <= 2 && d <= 1 ==> r.character
                == Character::Nyorotchi)
            &&& (careless && d <= 1 ==> r.character == Character::Kuchipatchi)
            &&& (careless && 2 <= d <= 3 ==> r.character == Character::Nyorotchi)
            &&& (careless && d >= 4 ==> r.character == Character::Tarakotchi)
        }),
{
}

/// A round of the guessing game reports the pet's hidden choice for that round,
/// is won exactly when the player picked the same side, moves the game on by one
/// round and adds one win for a won round.
pub proof fn lemma_round_reports_the_hidden_choice(s: PetState, g: GameSession, choice: Choice)
    requires
        g.round < 5,
        g.wins < 255,
        round_result(s, g, choice).2 is Ok,
    ensures
        ({
            let (_, after, r) = round_result(s, g, choice);
            let o = r->Ok_0;
            &&& o.pet_choice == g.sequence@[g.round as int]
            &&& o.won == (choice == g.sequence@[g.round as int])
            &&& o.round == g.round + 1
            &&& after.round == g.round + 1
            &&& o.wins == after.wins
            &&& after.wins == g.wins + (if o.won { 1int } else { 0int })
            &&& after.sequence == g.sequence
            &&& o.finished == (g.round + 1 == 5)
        }),
{
}

/// A meal that the pet accepts adds one hunger heart, but never above 4: the new
/// hunger is min(h + 1, 4) for a hunger h of at most 4, and a unit of weight.
pub proof fn lemma_meal_adds_a_heart(s: PetState)
    requires
        meal_result(s).1 is Ok,
        s.hunger <= 4,
        s.weight < 255,
    ensures
        ({
            let r = meal_result(s).0;
            &&& meal_result(s).1 == Ok::<ActionResult, crate::actions::ActionError>(ActionResult::Fed)
            &&& (s.hunger < 4 ==> r.hunger == s.hunger + 1)
            &&& (s.hunger == 4 ==> r.hunger == 4)
            &&& r.hunger <= 4
            &&& r.weight == s.weight + 1
        }),
{
}

/// Answering a pending discipline call raises discipline by 25, but never above
/// 100: the new discipline is min(d + 25, 100), and the call is cleared.
pub proof fn lemma_discipline_adds_a_quarter(s: PetState)
    requires
        s.is_alive,
        s.pending_discipline_deadline is Some,
    ensures
        ({
            let r = discipline_result(s).0;
            &&& discipline_result(s).1 == Ok::<ActionResult, crate::actions::ActionError>(
                ActionResult::Disciplined,
            )
            &&& (s.discipline + 25 <= 100 ==> r.discipline == s.discipline + 25)
            &&& (s.discipline + 25 > 100 ==> r.discipline == 100)
            &&& r.pending_discipline_deadline is None
        }),
{
}

/// A snack that the pet accepts adds one happiness heart, but never above 4, two
/// units of weight and one snack to the count; a baby falls sick once it has had
/// 3 snacks or more, and any other pet's health is left as it was.
pub proof fn lemma_snack_adds_a_heart(s: PetState)
    requires
        s.is_alive,
        !s.is_sleeping,
        s.happiness <= 4,
        s.weight < 254,
        s.snack_count_since_last_tick < 255,
    ensures
        ({
            let r = snack_result(s).0;
            &&& snack_result(s).1 == Ok::<ActionResult, ActionError>(ActionResult::Snacked)
            &&& (s.happiness < 4 ==> r.happiness == s.happiness + 1)
            &&& (s.happiness == 4 ==> r.happiness == 4)
            &&& r.weight == s.weight + 2
            &&& r.snack_count_since_last_tick == s.snack_count_since_last_tick + 1
            &&& (s.stage == LifeStage::Baby && s.snack_count_since_last_tick + 1 >= 3 ==> r.is_sick)
            &&& (s.stage == LifeStage::Baby && s.snack_count_since_last_tick + 1 < 3 ==> r.is_sick == s.is_sick)
            &&& (s.stage != LifeStage::Baby ==> r.is_sick == s.is_sick)
            &&& r.hunger == s.hunger
        }),
{
}

/// The number of the five rounds in which the player picked the pet's side.
pub open spec fn matches_of(sequence: Seq<Choice>, moves: Seq<Choice>) -> int {
    (if moves[0] == sequence[0] { 1int } else { 0 }) + (if moves[1] == sequence[1] { 1int } else { 0 })
        + (if moves[2] == sequence[2] { 1int } else { 0 }) + (if moves[3] == sequence[3] { 1int } else { 0 })
        + (if moves[4] == sequence[4] { 1int } else { 0 })
}

/// A whole game played by a living, awake, healthy pet: five rounds, one win per
/// round where the player picked the pet's side; 3 wins or more add one
/// happiness heart (never above 4), fewer leave happiness as it was; the pet
/// loses one unit of weight but never goes below 1; the happiness gained is
/// what was added.
pub proof fn lemma_game_counts_matching_rounds(s: PetState, sequence: Seq<Choice>, moves: Seq<Choice>)
    requires
        s.is_alive,
        !s.is_sleeping,
        !s.is_sick,
        s.happiness <= 4,
        sequence.len() == 5,
        moves.len() == 5,
    ensures
        ({
            let (r, res) = game_result(s, sequence, moves);
            let w = matches_of(sequence, moves);
            &&& res is Ok
            &&& res->Ok_0.rounds == 5
            &&& res->Ok_0.wins == w
            &&& (w >= 3 && s.happiness < 4 ==> r.happiness == s.happiness + 1)
            &&& (w >= 3 && s.happiness == 4 ==> r.happiness == 4)
            &&& (w < 3 ==> r.happiness == s.happiness)
            &&& res->Ok_0.happiness_gained == r.happiness - s.happiness
            &&& (s.weight > 1 ==> r.weight == s.weight - 1)
            &&& (s.weight <= 1 ==> r.weight == 1)
        }),
{
    reveal_with_fuel(crate::actions::wins_in, 6);
}

/// Medicine for a living, sick pet: the first dose only counts, the second cures
/// it and resets the count; a healthy pet is refused and left as it was.
pub proof fn lemma_medicine_cures_on_the_second_dose(s: PetState)
    requires
        s.is_alive,
        s.sick_dose_count < 255,
    ensures
        !s.is_sick ==> medicine_result(s) == (s, Err::<ActionResult, ActionError>(ActionError::PetIsNotSick)),
        s.is_sick && s.sick_dose_count == 0 ==> {
            let r = medicine_result(s).0;
            r.is_sick && r.sick_dose_count == 1
        },
        s.is_sick && s.sick_dose_count >= 1 ==> {
            let r = medicine_result(s).0;
            !r.is_sick && r.sick_dose_count == 0 && r.sick_since is None
        },
{
}

/// Cleaning a living pet removes exactly one poop, and is refused where there is
/// none.
pub proof fn lemma_cleaning_removes_one_poop(s: PetState)
    requires
        s.is_alive,
    ensures
        s.poop_count > 0 ==> clean_result(s).0.poop_count == s.poop_count - 1 && clean_result(s).1 is Ok,
        s.poop_count == 0 ==> clean_result(s) == (s, Err::<ActionResult, ActionError>(ActionError::NoPoop)),
{
}

/// The lights switch flips the lights of a living pet; switching them off clears
/// the lights deadline, and within the sleep window the pet then sleeps.
pub proof fn lemma_lights_switch_flips(s: PetState, now: Timestamp)
    requires
        s.is_alive,
    ensures
        lights_result(s, now).0.lights_on == !s.lights_on,
        s.lights_on ==> lights_result(s, now).0.pending_lights_deadline is None,
        s.lights_on && in_sleep_window(crate::characters::stats_of(s.character), hour_of(now))
            ==> lights_result(s, now).0.is_sleeping,
        lights_result(s, now).1 is Ok,
{
}

/// Heart decay over `e` minutes: each meter drops by the whole number of periods
/// in `e`, and stops at 0; where a meter ends at 0 and no care call was pending,
/// one is set 15 minutes after `now`.
pub proof fn lemma_decay_drops_whole_periods(s: PetState, st: CharacterStats, e: u16, now: Timestamp)
    requires
        st.hunger_decay_minutes > 0,
        st.happy_decay_minutes > 0,
    ensures
        ({
            let r = decayed(s, st, e, now);
            let h = e / st.hunger_decay_minutes;
            let p = e / st.happy_decay_minutes;
            &&& (h <= s.hunger ==> r.hunger == s.hunger - h)
            &&& (h > s.hunger ==> r.hunger == 0)
            &&& (p <= s.happiness ==> r.happiness == s.happiness - p)
            &&& (p > s.happiness ==> r.happiness == 0)
            &&& ((r.hunger == 0 || r.happiness == 0) && s.pending_care_deadline is None
                ==> r.pending_care_deadline == Some(now.later_by_minutes(15)))
            &&& (!((r.hunger == 0 || r.happiness == 0) && s.pending_care_deadline is None)
                ==> r.pending_care_deadline == s.pending_care_deadline)
        }),
{
}

/// A care deadline that has passed costs exactly one care mistake and is
/// cleared; one that has not passed changes nothing. The same holds of
/// discipline deadlines and discipline mistakes.
pub proof fn lemma_missed_deadlines_cost_one_mistake(s: PetState, now: Timestamp)
    requires
        s.care_mistakes < 255,
        s.discipline_mistakes < 255,
    ensures
        s.pending_care_deadline matches Some(d) && not_before(now, d) ==> {
            let r = care_deadline_checked(s, now);
            r.care_mistakes == s.care_mistakes + 1 && r.pending_care_deadline is None
        },
        !(s.pending_care_deadline matches Some(d) && not_before(now, d)) ==> care_deadline_checked(s, now) == s,
        s.pending_discipline_deadline matches Some(d) && not_before(now, d) ==> {
            let r = discipline_deadline_checked(s, now);
            r.discipline_mistakes == s.discipline_mistakes + 1 && r.pending_discipline_deadline is None
        },
        !(s.pending_discipline_deadline matches Some(d) && not_before(now, d))
            ==> discipline_deadline_checked(s, now) == s,
{
}

/// Poop piles up at one per interval since the last poop time, but never above
/// 4; the poop clock moves on by the whole intervals counted.
pub proof fn lemma_poop_piles_up_by_interval(s: PetState, st: CharacterStats, now: Timestamp)
    requires
        st.poop_interval_minutes > 0,
        s.poop_count <= 4,
        minutes_between(now, s.last_poop_time) >= 0,
    ensures
        ({
            let n = minutes_between(now, s.last_poop_time) / (st.poop_interval_minutes as int);
            let r = pooped(s, st, now);
            &&& (s.poop_count + n <= 4 ==> r.poop_count == s.poop_count + n)
            &&& (s.poop_count + n > 4 ==> r.poop_count == 4)
            &&& (n > 0 ==> r.last_poop_time == s.last_poop_time.later_by_minutes(
                n * st.poop_interval_minutes,
            ))
            &&& (n == 0 ==> r == s)
        }),
{
}

/// An egg hatches into a Babytchi with empty meters once 5 minutes have passed
/// in its stage, and not before.
pub proof fn lemma_egg_hatches_after_five_minutes(s: PetState, now: Timestamp)
    ensures
        minutes_between(now, s.stage_start_time) >= 5 ==> {
            let r = hatched(s, now);
            &&& r.stage == LifeStage::Baby
            &&& r.character == Character::Babytchi
            &&& r.hunger == 0
            &&& r.happiness == 0
            &&& r.stage_start_time == now
        },
        minutes_between(now, s.stage_start_time) < 5 ==> hatched(s, now) == s,
{
}

/// Waking in the morning adds one year of age, turns the lights on and resets
/// the snack count; outside the waking window a sleeping pet stays as it is.
pub proof fn lemma_waking_adds_a_year(s: PetState, st: CharacterStats, now: Timestamp)
    requires
        s.age < 65535,
    ensures
        crate::engine::in_wake_window(st, hour_of(now)) ==> {
            let r = woken(s, st, now);
            &&& r.age == s.age + 1
            &&& !r.is_sleeping
            &&& r.lights_on
            &&& r.snack_count_since_last_tick == 0
        },
        !crate::engine::in_wake_window(st, hour_of(now)) ==> woken(s, st, now) == s,
{
}

/// A baby grows into a Marutchi child after 65 minutes in its stage; a child
/// grows into a teen at age 3, a Tamatchi with at most 2 care mistakes and a
/// Kuchitamatchi otherwise, of Type1 with at most 2 discipline mistakes and Type2
/// otherwise; a Type2 Maskutchi becomes Oyajitchi after 4 days as an adult.
pub proof fn lemma_younger_stages_grow(s: PetState, now: Timestamp)
    ensures
        s.stage == LifeStage::Baby ==> (crate::evolution::minutes_in_stage(s, now) >= 65 <==> evolution_step(
            s,
            now,
        ).1) && (evolution_step(s, now).1 ==> evolution_step(s, now).0.stage == LifeStage::Child
            && evolution_step(s, now).0.character == Character::Marutchi),
        s.stage == LifeStage::Child ==> (s.age >= 3 <==> evolution_step(s, now).1) && (evolution_step(
            s,
            now,
        ).1 ==> {
            let r = evolution_step(s, now).0;
            &&& r.stage == LifeStage::Teen
            &&& r.character == (if s.care_mistakes <= 2 {
                Character::Tamatchi
            } else {
                Character::Kuchitamatchi
            })
            &&& r.teen_type == Some(if s.discipline_mistakes <= 2 { TeenType::Type1 } else { TeenType::Type2 })
        }),
        s.stage == LifeStage::Adult && s.character == Character::Maskutchi && s.teen_type == Some(
            TeenType::Type2,
        ) && crate::evolution::minutes_in_stage(s, now) >= 4 * 24 * 60 ==> evolution_step(s, now).0.character
            == Character::Oyajitchi && evolution_step(s, now).0.stage == LifeStage::Special,
{
}

} // verus!
