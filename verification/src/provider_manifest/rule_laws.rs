//! When a manifest model passes each rule, and what is said of it where it does
//! not.
//!
//! The laws are stated in numbers, code points and literal texts.

use vstd::prelude::*;
use vstd::utf8::encode_utf8;

use super::{rules, ProviderManifestModel, ProviderManifestServiceTier};
use crate::models::InputModality;
use crate::text;
use crate::text_laws;

verus! {

/// The text can be an id of at most `max_bytes`.
pub open spec fn is_id(value: Seq<char>, max_bytes: nat) -> bool {
    &&& 0 < value.len()
    &&& encode_utf8(value).len() <= max_bytes
    &&& forall|i: int| 0 <= i < value.len() ==> text_laws::is_id_code(#[trigger] value[i] as int)
}

/// The text has white space at neither end.
pub open spec fn has_no_outer_space(value: Seq<char>) -> bool {
    value.len() > 0 ==> !text_laws::is_space_code(value[0] as int) && !text_laws::is_space_code(
        value[value.len() - 1] as int,
    )
}

/// The text can be prose of at most `max_bytes`.
pub open spec fn is_prose(value: Seq<char>, max_bytes: nat) -> bool {
    &&& encode_utf8(value).len() <= max_bytes
    &&& has_no_outer_space(value)
    &&& forall|i: int| 0 <= i < value.len() ==> text_laws::is_line_code(#[trigger] value[i] as int)
}

/// A token limit, where one is given, is positive and can be multiplied by nine.
pub open spec fn is_limit(value: Option<i64>) -> bool {
    value matches Some(limit) ==> 0 < limit && limit * 9 <= 9_223_372_036_854_775_807
}

pub(crate) proof fn lemma_token_rule(name: Seq<char>, value: Seq<char>, max_bytes: nat)
    ensures
        rules::token_check(name, value, max_bytes) is Ok <==> is_id(value, max_bytes),
        text::is_trimmed(value) == has_no_outer_space(value),
{
    if is_id(value, max_bytes) {
        assert(text_laws::is_id_code(value[0] as int));
        assert(text_laws::is_id_code(value[value.len() - 1] as int));
        assert forall|i: int| 0 <= i < value.len() implies text::is_token_char(
            #[trigger] value[i],
        ) by {
            assert(text_laws::is_id_code(value[i] as int));
        }
    }
    if rules::token_check(name, value, max_bytes) is Ok {
        assert forall|i: int| 0 <= i < value.len() implies text_laws::is_id_code(
            #[trigger] value[i] as int,
        ) by {
            assert(text::is_token_char(value[i]));
        }
    }
}

pub(crate) proof fn lemma_prose_rule(name: Seq<char>, value: Seq<char>, max_bytes: nat)
    ensures
        rules::prose_check(name, value, max_bytes) is Ok <==> is_prose(value, max_bytes),
        text::is_single_line(value) <==> forall|i: int|
            0 <= i < value.len() ==> text_laws::is_line_code(#[trigger] value[i] as int),
{
    if text::is_single_line(value) {
        assert forall|i: int| 0 <= i < value.len() implies text_laws::is_line_code(
            #[trigger] value[i] as int,
        ) by {
            assert(text::stays_on_line(value[i]));
        }
    }
    if forall|i: int|
        0 <= i < value.len() ==> text_laws::is_line_code(#[trigger] value[i] as int) {
        assert forall|i: int| 0 <= i < value.len() implies text::stays_on_line(
            #[trigger] value[i],
        ) by {
            assert(text_laws::is_line_code(value[i] as int));
        }
    }
}

/// An id passes exactly when it is not empty, not too long, and made of id
/// characters throughout. What is wrong is looked for in the order: missing or
/// not trimmed, too long, other characters.
pub proof fn ids_pass_by_length_and_characters(
    name: &str,
    value: &str,
    max_bytes: usize,
    result: Result<(), String>,
)
    requires
        call_ensures(rules::validate_model_visible_token, (name, value, max_bytes), result),
    ensures
        result is Ok <==> is_id(value@, max_bytes as nat),
        result matches Err(message) ==> message@ == "provider manifest "@ + name@ + (if value@.len()
            == 0 || !has_no_outer_space(value@) {
            " must be non-empty and trimmed"@
        } else if encode_utf8(value@).len() > max_bytes {
            " must be no more than "@ + text::decimal(max_bytes as nat) + " bytes"@
        } else {
            " must contain only ASCII letters, digits, '-', '_', '.', ':', or '/'"@
        }),
{
    lemma_token_rule(name@, value@, max_bytes as nat);
    if let Err(message) = result {
        assert(message@ =~= "provider manifest "@ + name@ + (if value@.len() == 0
            || !has_no_outer_space(value@) {
            " must be non-empty and trimmed"@
        } else if encode_utf8(value@).len() > max_bytes {
            " must be no more than "@ + text::decimal(max_bytes as nat) + " bytes"@
        } else {
            " must contain only ASCII letters, digits, '-', '_', '.', ':', or '/'"@
        }));
    }
}

/// Prose passes exactly when it is not too long, trimmed and on one line. What
/// is wrong is looked for in that order.
pub proof fn prose_passes_by_length_and_lines(
    name: &str,
    value: &str,
    max_bytes: usize,
    result: Result<(), String>,
)
    requires
        call_ensures(rules::validate_bounded_single_line_text, (name, value, max_bytes), result),
    ensures
        result is Ok <==> is_prose(value@, max_bytes as nat),
        result matches Err(message) ==> message@ == "provider manifest "@ + name@ + (if encode_utf8(
            value@,
        ).len() > max_bytes {
            " must be no more than "@ + text::decimal(max_bytes as nat) + " bytes"@
        } else if !has_no_outer_space(value@) {
            " must be trimmed"@
        } else {
            " must be single-line text without control characters"@
        }),
{
    lemma_prose_rule(name@, value@, max_bytes as nat);
    if let Err(message) = result {
        assert(message@ =~= "provider manifest "@ + name@ + (if encode_utf8(value@).len()
            > max_bytes {
            " must be no more than "@ + text::decimal(max_bytes as nat) + " bytes"@
        } else if !has_no_outer_space(value@) {
            " must be trimmed"@
        } else {
            " must be single-line text without control characters"@
        }));
    }
}

/// A limit is handed through exactly when it is left out, or positive and safe
/// to multiply by nine.
pub proof fn limits_pass_when_positive_and_safe(
    name: &str,
    value: Option<i64>,
    result: Result<Option<i64>, String>,
)
    requires
        call_ensures(rules::positive_limit, (name, value), result),
    ensures
        result is Ok <==> is_limit(value),
        result matches Ok(limit) ==> limit == value,
        result matches Err(message) ==> message@ == "provider manifest model "@ + name@ + (if value->0
            <= 0 {
            " must be positive"@
        } else {
            " must be no greater than "@ + text::decimal(1_024_819_115_206_086_200)
        }),
{
    if let Err(message) = result {
        assert(message@ =~= "provider manifest model "@ + name@ + (if value->0 <= 0 {
            " must be positive"@
        } else {
            " must be no greater than "@ + text::decimal(1_024_819_115_206_086_200)
        }));
    }
}

/// The efforts of a model as they should be: at most eight, each with an id of
/// at most 32 bytes, and no id twice.
pub open spec fn has_sound_efforts(model: ProviderManifestModel) -> bool {
    let efforts = model.supported_reasoning_efforts@;
    &&& efforts.len() <= 8
    &&& model.default_reasoning_effort matches Some(effort) ==> is_id(effort.id(), 32)
    &&& forall|i: int| 0 <= i < efforts.len() ==> is_id((#[trigger] efforts[i]).id(), 32)
    &&& forall|i: int, j: int|
        0 <= i < j < efforts.len() ==> (#[trigger] efforts[i]).id() != (#[trigger] efforts[j]).id()
}

proof fn lemma_effort_ids_rule(model: ProviderManifestModel, n: nat)
    requires
        n <= model.supported_reasoning_efforts@.len(),
    ensures
        rules::effort_ids_check(model, n) is Ok <==> {
            &&& model.default_reasoning_effort matches Some(effort) ==> is_id(effort.id(), 32)
            &&& forall|i: int|
                0 <= i < n ==> is_id(
                    (#[trigger] model.supported_reasoning_efforts@[i]).id(),
                    32,
                )
        },
    decreases n,
{
    if n == 0 {
        if let Some(effort) = model.default_reasoning_effort {
            lemma_token_rule("reasoning effort id"@, effort.id(), 32);
        }
    } else {
        lemma_effort_ids_rule(model, (n - 1) as nat);
        lemma_token_rule(
            "reasoning effort id"@,
            model.supported_reasoning_efforts@[n - 1].id(),
            32,
        );
    }
}

proof fn lemma_unique_efforts_rule(model: ProviderManifestModel, n: nat)
    requires
        n <= model.supported_reasoning_efforts@.len(),
    ensures
        rules::unique_efforts_check(model, n) is Ok <==> forall|i: int, j: int|
            0 <= i < j < n ==> (#[trigger] model.supported_reasoning_efforts@[i]).id() != (
            #[trigger] model.supported_reasoning_efforts@[j]).id(),
    decreases n,
{
    let efforts = model.supported_reasoning_efforts@;
    let ids = rules::effort_ids(efforts);
    if n > 0 {
        lemma_unique_efforts_rule(model, (n - 1) as nat);
        if rules::repeats(ids, n - 1) {
            let j = choose|j: int| 0 <= j < n - 1 && #[trigger] ids[j] == ids[n - 1];
            assert(efforts[j].id() == efforts[n - 1].id());
        } else {
            assert forall|i: int| 0 <= i < n - 1 implies (#[trigger] efforts[i]).id()
                != efforts[n - 1].id() by {
                assert(ids[i] == efforts[i].id());
            }
        }
    }
}

pub(crate) proof fn lemma_efforts_rule(model: ProviderManifestModel)
    ensures
        rules::efforts_check(model) is Ok <==> has_sound_efforts(model),
{
    let n = model.supported_reasoning_efforts@.len();
    lemma_effort_ids_rule(model, n);
    lemma_unique_efforts_rule(model, n);
}

/// Efforts pass exactly when there are not too many, each has an id, and none is
/// listed twice. Too many are reported before anything else, and a repeated one
/// is named, together with the model.
pub proof fn efforts_pass_when_few_and_distinct(
    model: ProviderManifestModel,
    result: Result<(), String>,
)
    requires
        call_ensures(rules::validate_reasoning_efforts, (&model,), result),
    ensures
        result is Ok <==> has_sound_efforts(model),
        model.supported_reasoning_efforts@.len() > 8 ==> (result matches Err(message) && message@
            == "provider manifest model "@ + model.id@ + " must contain no more than "@
            + text::decimal(8) + " supported reasoning efforts"@),
{
    lemma_efforts_rule(model);
    if model.supported_reasoning_efforts@.len() > 8 {
        assert("provider manifest model "@ + model.id@ + (" must contain no more than "@
            + text::decimal(8) + " supported reasoning efforts"@) =~= "provider manifest model "@
            + model.id@ + " must contain no more than "@ + text::decimal(8)
            + " supported reasoning efforts"@);
    }
}

/// Among efforts with sound ids, the first that repeats an earlier one is named,
/// together with the model.
pub proof fn the_first_repeated_effort_is_named(
    model: ProviderManifestModel,
    result: Result<(), String>,
    i: int,
    k: int,
)
    requires
        call_ensures(rules::validate_reasoning_efforts, (&model,), result),
        model.supported_reasoning_efforts@.len() <= 8,
        model.default_reasoning_effort matches Some(effort) ==> is_id(effort.id(), 32),
        forall|j: int|
            0 <= j < model.supported_reasoning_efforts@.len() ==> is_id(
                (#[trigger] model.supported_reasoning_efforts@[j]).id(),
                32,
            ),
        0 <= i < k < model.supported_reasoning_efforts@.len(),
        model.supported_reasoning_efforts@[i].id() == model.supported_reasoning_efforts@[k].id(),
        forall|a: int, b: int|
            0 <= a < b < k ==> (#[trigger] model.supported_reasoning_efforts@[a]).id() != (
            #[trigger] model.supported_reasoning_efforts@[b]).id(),
    ensures
        result matches Err(message) && message@ == "provider manifest model "@ + model.id@
            + " contains duplicate supported reasoning effort "@
            + model.supported_reasoning_efforts@[k].id(),
{
    let n = model.supported_reasoning_efforts@.len();
    let ids = rules::effort_ids(model.supported_reasoning_efforts@);
    lemma_effort_ids_rule(model, n);
    lemma_unique_efforts_rule(model, k as nat);
    assert(ids[i] == ids[k]);
    assert(rules::unique_efforts_check(model, (k + 1) as nat) is Err);
    rules::lemma_unique_efforts_check_stops(model, (k + 1) as nat, n);
    assert("provider manifest model "@ + model.id@ + (
    " contains duplicate supported reasoning effort "@ + ids[k]) =~= "provider manifest model "@
        + model.id@ + " contains duplicate supported reasoning effort "@ + ids[k]);
}

/// A bad effort id is reported as such: that of the default first, then that of
/// the first supported effort that has one.
pub proof fn the_first_bad_effort_id_is_reported(
    model: ProviderManifestModel,
    result: Result<(), String>,
    k: int,
    alone: Result<(), String>,
    id: &str,
)
    requires
        call_ensures(rules::validate_reasoning_efforts, (&model,), result),
        call_ensures(
            rules::validate_model_visible_token,
            ("reasoning effort id", id, 32usize),
            alone,
        ),
        alone is Err,
        model.supported_reasoning_efforts@.len() <= 8,
        -1 <= k < model.supported_reasoning_efforts@.len(),
        if k == -1 {
            model.default_reasoning_effort matches Some(effort) && effort.id() == id@
        } else {
            &&& model.default_reasoning_effort matches Some(effort) ==> is_id(effort.id(), 32)
            &&& forall|j: int|
                0 <= j < k ==> is_id((#[trigger] model.supported_reasoning_efforts@[j]).id(), 32)
            &&& model.supported_reasoning_efforts@[k].id() == id@
        },
    ensures
        result matches Err(message) && message@ == (alone->Err_0)@,
{
    let n = model.supported_reasoning_efforts@.len();
    lemma_effort_ids_rule(model, if k == -1 { 0 } else { k as nat });
    assert(rules::effort_ids_check(model, (k + 1) as nat) is Err);
    rules::lemma_effort_ids_check_stops(model, (k + 1) as nat, n);
}

/// A tier id is a name of its own for a request: not the word for standard
/// routing and not the old word for the priority tier.
pub open spec fn is_tier_id(id: Seq<char>) -> bool {
    is_id(id, 32) && id != "default"@ && id != "fast"@
}

/// One service tier as it should be.
pub open spec fn is_sound_tier(tier: ProviderManifestServiceTier) -> bool {
    &&& is_tier_id(tier.id@)
    &&& tier.name@.len() > 0
    &&& is_prose(tier.name@, 128)
    &&& is_prose(tier.description@, 256)
}

/// Two tiers can be told apart: their ids differ, and in more than case, unless
/// one of them is known by a name of its own.
pub open spec fn are_distinct_tiers(a: Seq<char>, b: Seq<char>) -> bool {
    &&& a != b
    &&& text_laws::same_but_for_case(a, b) ==> a == "priority"@ || a == "flex"@ || b == "priority"@
        || b == "flex"@
}

/// The service tiers of a model as they should be: at most four, each sound, and
/// any two of them distinct.
pub open spec fn has_sound_tiers(model: ProviderManifestModel) -> bool {
    let tiers = model.service_tiers@;
    &&& tiers.len() <= 4
    &&& forall|i: int| 0 <= i < tiers.len() ==> is_sound_tier(#[trigger] tiers[i])
    &&& forall|i: int, j: int|
        0 <= i < j < tiers.len() ==> are_distinct_tiers(
            (#[trigger] tiers[i]).id@,
            (#[trigger] tiers[j]).id@,
        )
}

/// The name under which a tier is chosen: `fast` for `priority`, `flex` for
/// `flex`, and for every other tier its id behind `tier-`.
pub proof fn tiers_are_chosen_by_their_ids(id: &str, name: String)
    requires
        call_ensures(rules::service_tier_command_name, (id,), name),
    ensures
        id@ == "priority"@ ==> name@ == "fast"@,
        id@ == "flex"@ ==> name@ == "flex"@,
        id@ != "priority"@ && id@ != "flex"@ ==> name@ == "tier-"@ + id@,
{
    reveal_strlit("priority");
    reveal_strlit("flex");
    assert("priority"@.len() != "flex"@.len());
}

proof fn lemma_command_case(a: Seq<char>, b: Seq<char>)
    ensures
        text::lowercase(rules::command_name(a)) == text::lowercase(rules::command_name(b))
            <==> a == b || (text_laws::same_but_for_case(a, b) && a != "priority"@ && a != "flex"@
            && b != "priority"@ && b != "flex"@),
{
    reveal_strlit("priority");
    reveal_strlit("flex");
    reveal_strlit("fast");
    reveal_strlit("tier-");
    assert("priority"@[0] == 'p' && "flex"@[0] == 'f');
    let x = text::lowercase(rules::command_name(a));
    let y = text::lowercase(rules::command_name(b));
    assert(rules::command_name(a)[0] == 'f' || rules::command_name(a)[0] == 't');
    assert(rules::command_name(b)[0] == 'f' || rules::command_name(b)[0] == 't');
    assert(x[0] == rules::command_name(a)[0]);
    assert(y[0] == rules::command_name(b)[0]);
    assert("fast"@[1] == 'a' && "flex"@[1] == 'l');
    assert(rules::command_name(a).len() >= 4 && rules::command_name(b).len() >= 4);
    assert(x[1] == text::ascii_lower(rules::command_name(a)[1]));
    assert(y[1] == text::ascii_lower(rules::command_name(b)[1]));
    text_laws::small_forms_compare_without_case(a, b);
    if a != "priority"@ && a != "flex"@ && b != "priority"@ && b != "flex"@ {
        let p = text::lowercase("tier-"@);
        assert(x =~= p + text::lowercase(a));
        assert(y =~= p + text::lowercase(b));
        assert(x.skip(5) =~= text::lowercase(a));
        assert(y.skip(5) =~= text::lowercase(b));
    }
}

proof fn lemma_tier_rule(tier: ProviderManifestServiceTier)
    ensures
        rules::tier_text_check(tier) is Ok <==> is_sound_tier(tier),
{
    lemma_token_rule("service tier id"@, tier.id@, 32);
    lemma_prose_rule("service tier name"@, tier.name@, 128);
    lemma_prose_rule("service tier description"@, tier.description@, 256);
    reveal_strlit("priority");
    reveal_strlit("flex");
    reveal_strlit("fast");
    assert("fast"@[0] == 'f' && "priority"@[0] == 'p');
    assert("fast"@[1] == 'a' && "flex"@[1] == 'l');
}

proof fn lemma_tier_unique_rule(model: ProviderManifestModel, i: int)
    requires
        0 <= i < model.service_tiers@.len(),
    ensures
        rules::tier_unique_check(model, i) is Ok <==> forall|j: int|
            0 <= j < i ==> are_distinct_tiers(
                (#[trigger] model.service_tiers@[j]).id@,
                model.service_tiers@[i].id@,
            ),
{
    let tiers = model.service_tiers@;
    let ids = rules::tier_ids(tiers);
    let commands = rules::tier_commands(tiers);
    if rules::tier_unique_check(model, i) is Ok {
        assert forall|j: int| 0 <= j < i implies are_distinct_tiers(
            (#[trigger] tiers[j]).id@,
            tiers[i].id@,
        ) by {
            lemma_command_case(tiers[j].id@, tiers[i].id@);
            assert(ids[j] == tiers[j].id@);
            assert(commands[j] == text::lowercase(rules::command_name(tiers[j].id@)));
        }
    } else if rules::repeats(ids, i) {
        let j = choose|j: int| 0 <= j < i && #[trigger] ids[j] == ids[i];
        assert(tiers[j].id@ == tiers[i].id@);
    } else {
        let j = choose|j: int| 0 <= j < i && #[trigger] commands[j] == commands[i];
        lemma_command_case(tiers[j].id@, tiers[i].id@);
        assert(!are_distinct_tiers(tiers[j].id@, tiers[i].id@));
    }
}

proof fn lemma_first_tiers_rule(model: ProviderManifestModel, n: nat)
    requires
        n <= model.service_tiers@.len(),
    ensures
        rules::first_tiers_check(model, n) is Ok <==> {
            &&& forall|i: int| 0 <= i < n ==> is_sound_tier(#[trigger] model.service_tiers@[i])
            &&& forall|i: int, j: int|
                0 <= i < j < n ==> are_distinct_tiers(
                    (#[trigger] model.service_tiers@[i]).id@,
                    (#[trigger] model.service_tiers@[j]).id@,
                )
        },
    decreases n,
{
    if n > 0 {
        lemma_first_tiers_rule(model, (n - 1) as nat);
        lemma_tier_rule(model.service_tiers@[n - 1]);
        lemma_tier_unique_rule(model, n - 1);
    }
}

pub(crate) proof fn lemma_tiers_rule(model: ProviderManifestModel)
    ensures
        rules::tiers_check(model) is Ok <==> has_sound_tiers(model),
{
    lemma_first_tiers_rule(model, model.service_tiers@.len());
}

/// Service tiers pass exactly when there are not too many, each is sound, and
/// any two are distinct. Too many are reported before anything else.
pub proof fn tiers_pass_when_few_sound_and_distinct(
    model: ProviderManifestModel,
    result: Result<(), String>,
)
    requires
        call_ensures(rules::validate_service_tiers, (&model,), result),
    ensures
        result is Ok <==> has_sound_tiers(model),
        model.service_tiers@.len() > 4 ==> (result matches Err(message) && message@
            == "provider manifest model "@ + model.id@ + " must contain no more than "@
            + text::decimal(4) + " service tiers"@),
{
    lemma_tiers_rule(model);
    if model.service_tiers@.len() > 4 {
        assert("provider manifest model "@ + model.id@ + (" must contain no more than "@
            + text::decimal(4) + " service tiers"@) =~= "provider manifest model "@ + model.id@
            + " must contain no more than "@ + text::decimal(4) + " service tiers"@);
    }
}

/// What is said of a tier that is broken by itself, where every part before the
/// broken one is sound.
pub open spec fn is_tier_complaint(
    tier: ProviderManifestServiceTier,
    message: Seq<char>,
) -> bool {
    if !is_id(tier.id@, 32) {
        rules::token_check("service tier id"@, tier.id@, 32) == Err::<(), _>(message)
    } else if tier.id@ == "default"@ {
        message == "provider manifest service tier id `"@ + "default"@
            + "` is reserved for standard routing"@
    } else if tier.id@ == "fast"@ {
        message == "provider manifest service tier id `"@ + "fast"@
            + "` is reserved for a legacy alias; advertise `"@ + "priority"@ + "` instead"@
    } else if !is_prose(tier.name@, 128) {
        rules::prose_check("service tier name"@, tier.name@, 128) == Err::<(), _>(message)
    } else if tier.name@.len() == 0 {
        message == "provider manifest service tier name must be non-empty"@
    } else {
        rules::prose_check("service tier description"@, tier.description@, 256) == Err::<(), _>(
            message,
        )
    }
}

/// The first tier that is broken, or that cannot be told from an earlier one, is
/// the one that is reported: for itself first, then for its id, then for the
/// name under which it would be chosen.
pub proof fn the_first_broken_tier_is_reported(
    model: ProviderManifestModel,
    result: Result<(), String>,
    k: int,
)
    requires
        call_ensures(rules::validate_service_tiers, (&model,), result),
        model.service_tiers@.len() <= 4,
        0 <= k < model.service_tiers@.len(),
        forall|i: int| 0 <= i < k ==> is_sound_tier(#[trigger] model.service_tiers@[i]),
        forall|i: int, j: int|
            0 <= i < j < k ==> are_distinct_tiers(
                (#[trigger] model.service_tiers@[i]).id@,
                (#[trigger] model.service_tiers@[j]).id@,
            ),
    ensures
        !is_sound_tier(model.service_tiers@[k]) ==> (result matches Err(message)
            && is_tier_complaint(model.service_tiers@[k], message@)),
        is_sound_tier(model.service_tiers@[k]) && (exists|i: int|
            0 <= i < k && (#[trigger] model.service_tiers@[i]).id@ == model.service_tiers@[k].id@)
            ==> (result matches Err(message) && message@ == "provider manifest model "@ + model.id@
            + " contains duplicate service tier id "@ + model.service_tiers@[k].id@),
        is_sound_tier(model.service_tiers@[k]) && (forall|i: int|
            0 <= i < k ==> (#[trigger] model.service_tiers@[i]).id@ != model.service_tiers@[k].id@)
            && (exists|i: int|
            0 <= i < k && !are_distinct_tiers(
                (#[trigger] model.service_tiers@[i]).id@,
                model.service_tiers@[k].id@,
            )) ==> (result matches Err(message) && message@ == "provider manifest model "@ + model.id@
            + " contains duplicate normalized service tier command "@ + text::lowercase(
            "tier-"@ + model.service_tiers@[k].id@,
        )),
{
    let tiers = model.service_tiers@;
    let tier = tiers[k];
    let ids = rules::tier_ids(tiers);
    let commands = rules::tier_commands(tiers);
    lemma_first_tiers_rule(model, k as nat);
    lemma_tier_rule(tier);
    lemma_tier_unique_rule(model, k);
    lemma_token_rule("service tier id"@, tier.id@, 32);
    lemma_prose_rule("service tier name"@, tier.name@, 128);
    lemma_prose_rule("service tier description"@, tier.description@, 256);
    reveal_strlit("priority");
    reveal_strlit("flex");
    reveal_strlit("fast");
    reveal_strlit("default");
    assert("fast"@[0] == 'f' && "priority"@[0] == 'p' && "default"@[0] == 'd');
    assert("fast"@[1] == 'a' && "flex"@[1] == 'l');
    if rules::first_tiers_check(model, (k + 1) as nat) is Err {
        rules::lemma_first_tiers_check_stops(model, (k + 1) as nat, tiers.len());
    }
    let start = "provider manifest model "@ + model.id@;
    assert(start + (" contains duplicate service tier id "@ + tier.id@) =~= start
        + " contains duplicate service tier id "@ + tier.id@);
    assert(start + (" contains duplicate normalized service tier command "@ + commands[k]) =~= start
        + " contains duplicate normalized service tier command "@ + commands[k]);
    if exists|i: int| 0 <= i < k && (#[trigger] tiers[i]).id@ == tier.id@ {
        let i = choose|i: int| 0 <= i < k && (#[trigger] tiers[i]).id@ == tier.id@;
        assert(ids[i] == ids[k]);
        assert(!are_distinct_tiers(tiers[i].id@, tier.id@));
    } else {
        assert(!rules::repeats(ids, k)) by {
            if rules::repeats(ids, k) {
                let i = choose|i: int| 0 <= i < k && #[trigger] ids[i] == ids[k];
                assert(tiers[i].id@ == tier.id@);
            }
        }
    }
}

/// The input modalities of a model as they should be: one to three, none twice,
/// and text at any place among them.
pub open spec fn has_sound_modalities(model: ProviderManifestModel) -> bool {
    let modalities = model.input_modalities@;
    &&& 1 <= modalities.len() <= 3
    &&& modalities.no_duplicates()
    &&& exists|i: int| 0 <= i < modalities.len() && #[trigger] modalities[i] == InputModality::Text
}

pub(crate) proof fn lemma_modalities_rule(model: ProviderManifestModel)
    ensures
        rules::modalities_check(model) is Ok <==> has_sound_modalities(model),
        rules::repeats_modality(model.input_modalities@)
            <==> !model.input_modalities@.no_duplicates(),
{
    let modalities = model.input_modalities@;
    if rules::repeats_modality(modalities) {
        let (i, j) = choose|i: int, j: int|
            0 <= i < j < modalities.len() && #[trigger] modalities[i] == #[trigger] modalities[j];
        assert(modalities[i] == modalities[j]);
    }
    if !modalities.no_duplicates() {
        let (i, j) = choose|i: int, j: int|
            0 <= i < modalities.len() && 0 <= j < modalities.len() && i != j
                && #[trigger] modalities[i] == #[trigger] modalities[j];
        if i < j {
            assert(rules::repeats_modality(modalities));
        } else {
            assert(modalities[j] == modalities[i]);
            assert(rules::repeats_modality(modalities));
        }
    }
    if modalities.contains(InputModality::Text) {
        let i = choose|i: int| 0 <= i < modalities.len() && modalities[i] == InputModality::Text;
        assert(modalities[i] == InputModality::Text);
    }
}

/// Modalities pass exactly when there are one to three of them, none twice, and
/// text is one of them, wherever it stands. What is wrong is looked for in that
/// order.
pub proof fn modalities_pass_when_text_is_among_them(
    model: ProviderManifestModel,
    result: Result<(), String>,
)
    requires
        call_ensures(rules::validate_input_modalities, (&model,), result),
    ensures
        result is Ok <==> {
            &&& 1 <= model.input_modalities@.len() <= 3
            &&& model.input_modalities@.no_duplicates()
            &&& exists|i: int|
                0 <= i < model.input_modalities@.len() && #[trigger] model.input_modalities@[i]
                    == InputModality::Text
        },
        result matches Err(message) ==> message@ == "provider manifest model "@ + model.id@ + (
        if model.input_modalities@.len() == 0 {
            " must contain at least one input modality"@
        } else if model.input_modalities@.len() > 3 {
            " must contain no more than "@ + text::decimal(3) + " input modalities"@
        } else if !model.input_modalities@.no_duplicates() {
            " contains duplicate input modality"@
        } else {
            " must support text input"@
        }),
{
    lemma_modalities_rule(model);
}

/// The order of the modalities does not matter: models that list the same ones
/// both pass or both fail.
pub proof fn modalities_pass_in_any_order(
    first: ProviderManifestModel,
    second: ProviderManifestModel,
    first_result: Result<(), String>,
    second_result: Result<(), String>,
)
    requires
        call_ensures(rules::validate_input_modalities, (&first,), first_result),
        call_ensures(rules::validate_input_modalities, (&second,), second_result),
        first.input_modalities@.to_multiset() == second.input_modalities@.to_multiset(),
    ensures
        first_result is Ok <==> second_result is Ok,
{
    let a = first.input_modalities@;
    let b = second.input_modalities@;
    lemma_modalities_rule(first);
    lemma_modalities_rule(second);
    a.to_multiset_ensures();
    b.to_multiset_ensures();
    assert(a.len() == b.len());
    lemma_text_is_among(a);
    lemma_text_is_among(b);
    if a.no_duplicates() {
        a.lemma_multiset_has_no_duplicates();
        b.lemma_multiset_has_no_duplicates_conv();
    }
    if b.no_duplicates() {
        b.lemma_multiset_has_no_duplicates();
        a.lemma_multiset_has_no_duplicates_conv();
    }
}

proof fn lemma_text_is_among(modalities: Seq<InputModality>)
    ensures
        modalities.contains(InputModality::Text) <==> modalities.to_multiset().contains(
            InputModality::Text,
        ),
        modalities.contains(InputModality::Text) <==> exists|i: int|
            0 <= i < modalities.len() && #[trigger] modalities[i] == InputModality::Text,
{
    modalities.to_multiset_ensures();
    if modalities.contains(InputModality::Text) {
        let i = choose|i: int| 0 <= i < modalities.len() && modalities[i] == InputModality::Text;
        assert(modalities[i] == InputModality::Text);
    }
}

} // verus!
