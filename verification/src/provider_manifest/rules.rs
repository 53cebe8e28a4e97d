//! What a manifest model must satisfy before it may enter a catalog, and the
//! message that says what is wrong where it does not.

use vstd::prelude::*;

use super::{
    ProviderManifestModel, ProviderManifestServiceTier, MAX_INPUT_MODALITIES_PER_MODEL,
    MAX_REASONING_EFFORTS_PER_MODEL, MAX_REASONING_EFFORT_ID_BYTES, MAX_SAFE_MODEL_TOKEN_LIMIT,
    MAX_SERVICE_TIERS_PER_MODEL, MAX_SERVICE_TIER_DESCRIPTION_BYTES, MAX_SERVICE_TIER_ID_BYTES,
    MAX_SERVICE_TIER_NAME_BYTES,
};
use crate::models::{
    InputModality, ReasoningEffort, ServiceTier, SERVICE_TIER_DEFAULT_REQUEST_VALUE,
};
use crate::text;
use crate::text::{
    ascii_lowercase, byte_len, decimal_text, same_text, single_line, token, trimmed,
};

verus! {

/// The outcome of a rule: nothing, or the message that says how it is broken.
pub type Check = Result<(), Seq<char>>;

/// The rule's outcome that `result` reports.
pub open spec fn reported(result: Result<(), String>) -> Check {
    match result {
        Ok(_) => Ok(()),
        Err(message) => Err(message@),
    }
}

/// Both rules, the first one first.
pub open spec fn both(first: Check, second: Check) -> Check {
    if first is Err {
        first
    } else {
        second
    }
}

/// An identifier that may be shown to a model: a short, non-empty ASCII token.
pub open spec fn token_check(name: Seq<char>, value: Seq<char>, max_bytes: nat) -> Check {
    if value.len() == 0 || !text::is_trimmed(value) {
        Err("provider manifest "@ + name + " must be non-empty and trimmed"@)
    } else if text::byte_count(value) > max_bytes {
        Err(
            "provider manifest "@ + name + " must be no more than "@ + text::decimal(
                max_bytes,
            ) + " bytes"@,
        )
    } else if !text::is_token(value) {
        Err(
            "provider manifest "@ + name
                + " must contain only ASCII letters, digits, '-', '_', '.', ':', or '/'"@,
        )
    } else {
        Ok(())
    }
}

/// Prose for people: bounded, trimmed and on one line.
pub open spec fn prose_check(name: Seq<char>, value: Seq<char>, max_bytes: nat) -> Check {
    if text::byte_count(value) > max_bytes {
        Err(
            "provider manifest "@ + name + " must be no more than "@ + text::decimal(
                max_bytes,
            ) + " bytes"@,
        )
    } else if !text::is_trimmed(value) {
        Err("provider manifest "@ + name + " must be trimmed"@)
    } else if !text::is_single_line(value) {
        Err(
            "provider manifest "@ + name
                + " must be single-line text without control characters"@,
        )
    } else {
        Ok(())
    }
}

fn size_message(name: &str, max_bytes: usize) -> (message: String)
    ensures
        message@ == "provider manifest "@ + name@ + " must be no more than "@
            + text::decimal(max_bytes as nat) + " bytes"@,
{
    let limit = decimal_text(max_bytes as u64);
    "provider manifest ".to_owned().concat(name).concat(" must be no more than ").concat(
        limit.as_str(),
    ).concat(" bytes")
}

/// Identifiers are put into the text that describes models and service tiers to
/// another model. Restricting them to short ASCII tokens keeps quoting,
/// markup, line breaks and prose out of it.
pub fn validate_model_visible_token(name: &str, value: &str, max_bytes: usize) -> (result: Result<
    (),
    String,
>)
    ensures
        reported(result) == token_check(name@, value@, max_bytes as nat),
{
    if value.is_empty() || !trimmed(value) {
        return Err(
            "provider manifest ".to_owned().concat(name).concat(" must be non-empty and trimmed"),
        );
    }
    if byte_len(value) > max_bytes {
        return Err(size_message(name, max_bytes));
    }
    if !token(value) {
        return Err(
            "provider manifest ".to_owned().concat(name).concat(
                " must contain only ASCII letters, digits, '-', '_', '.', ':', or '/'",
            ),
        );
    }
    Ok(())
}

/// Bounds prose that is shown to people and keeps it on one line.
pub fn validate_bounded_single_line_text(name: &str, value: &str, max_bytes: usize) -> (result:
    Result<(), String>)
    ensures
        reported(result) == prose_check(name@, value@, max_bytes as nat),
{
    if byte_len(value) > max_bytes {
        return Err(size_message(name, max_bytes));
    }
    if !trimmed(value) {
        return Err("provider manifest ".to_owned().concat(name).concat(" must be trimmed"));
    }
    if !single_line(value) {
        return Err(
            "provider manifest ".to_owned().concat(name).concat(
                " must be single-line text without control characters",
            ),
        );
    }
    Ok(())
}

/// A token limit that is given is positive and small enough to be multiplied.
pub open spec fn limit_check(name: Seq<char>, value: Option<i64>) -> Check {
    match value {
        Some(limit) if limit <= 0 => Err("provider manifest model "@ + name + " must be positive"@),
        Some(limit) if limit > MAX_SAFE_MODEL_TOKEN_LIMIT => Err(
            "provider manifest model "@ + name + " must be no greater than "@ + text::decimal(
                MAX_SAFE_MODEL_TOKEN_LIMIT as nat,
            ),
        ),
        _ => Ok(()),
    }
}

/// Hands a usable token limit through.
pub fn positive_limit(name: &str, value: Option<i64>) -> (result: Result<Option<i64>, String>)
    ensures
        match result {
            Ok(limit) => limit == value && limit_check(name@, value) is Ok,
            Err(message) => limit_check(name@, value) == Err::<(), _>(message@),
        },
{
    if let Some(limit) = value {
        if limit <= 0 {
            return Err(
                "provider manifest model ".to_owned().concat(name).concat(" must be positive"),
            );
        }
        if limit > MAX_SAFE_MODEL_TOKEN_LIMIT {
            let most = decimal_text(MAX_SAFE_MODEL_TOKEN_LIMIT as u64);
            return Err(
                "provider manifest model ".to_owned().concat(name).concat(
                    " must be no greater than ",
                ).concat(most.as_str()),
            );
        }
    }
    Ok(value)
}

/// "provider manifest model <id><rest>".
pub open spec fn model_message(id: Seq<char>, rest: Seq<char>) -> Seq<char> {
    "provider manifest model "@ + id + rest
}

pub(crate) fn model_text(id: &str, rest: &str) -> (message: String)
    ensures
        message@ == model_message(id@, rest@),
{
    "provider manifest model ".to_owned().concat(id).concat(rest)
}

/// " must contain no more than <limit> <things>".
pub open spec fn count_rest(limit: nat, things: Seq<char>) -> Seq<char> {
    " must contain no more than "@ + text::decimal(limit) + things
}

fn count_text(limit: usize, things: &str) -> (rest: String)
    ensures
        rest@ == count_rest(limit as nat, things@),
{
    let limit = decimal_text(limit as u64);
    " must contain no more than ".to_owned().concat(limit.as_str()).concat(things)
}

/// The text at `i` stands at an earlier place too.
pub open spec fn repeats(texts: Seq<Seq<char>>, i: int) -> bool {
    exists|j: int| 0 <= j < i && #[trigger] texts[j] == texts[i]
}

/// The ids of the efforts.
pub open spec fn effort_ids(efforts: Seq<ReasoningEffort>) -> Seq<Seq<char>> {
    efforts.map_values(|effort: ReasoningEffort| effort.id())
}

/// The id of an effort may be shown to a model.
pub open spec fn effort_id_check(effort: ReasoningEffort) -> Check {
    token_check("reasoning effort id"@, effort.id(), MAX_REASONING_EFFORT_ID_BYTES as nat)
}

/// The ids of the default effort and of the first `n` supported efforts may be
/// shown to a model.
pub open spec fn effort_ids_check(model: ProviderManifestModel, n: nat) -> Check
    decreases n,
{
    if n == 0 {
        match model.default_reasoning_effort {
            Some(effort) => effort_id_check(effort),
            None => Ok(()),
        }
    } else {
        both(
            effort_ids_check(model, (n - 1) as nat),
            effort_id_check(model.supported_reasoning_efforts@[n - 1]),
        )
    }
}

/// None of the first `n` supported efforts repeats an earlier one.
pub open spec fn unique_efforts_check(model: ProviderManifestModel, n: nat) -> Check
    decreases n,
{
    if n == 0 {
        Ok(())
    } else {
        let ids = effort_ids(model.supported_reasoning_efforts@);
        both(
            unique_efforts_check(model, (n - 1) as nat),
            if repeats(ids, n - 1) {
                Err(
                    model_message(
                        model.id@,
                        " contains duplicate supported reasoning effort "@ + ids[n - 1],
                    ),
                )
            } else {
                Ok(())
            },
        )
    }
}

/// The efforts of a model: not too many, each with a showable id, none twice.
pub open spec fn efforts_check(model: ProviderManifestModel) -> Check {
    let n = model.supported_reasoning_efforts@.len();
    if n > MAX_REASONING_EFFORTS_PER_MODEL {
        Err(
            model_message(
                model.id@,
                count_rest(
                    MAX_REASONING_EFFORTS_PER_MODEL as nat,
                    " supported reasoning efforts"@,
                ),
            ),
        )
    } else {
        both(effort_ids_check(model, n), unique_efforts_check(model, n))
    }
}

fn effort_repeats(efforts: &Vec<ReasoningEffort>, i: usize) -> (yes: bool)
    requires
        i < efforts@.len(),
    ensures
        yes == repeats(effort_ids(efforts@), i as int),
{
    let ghost ids = effort_ids(efforts@);
    let mut j: usize = 0;
    while j < i
        invariant
            j <= i < efforts@.len(),
            ids == effort_ids(efforts@),
            forall|k: int| 0 <= k < j ==> #[trigger] ids[k] != ids[i as int],
        decreases i - j,
    {
        if same_text(efforts[j].as_str(), efforts[i].as_str()) {
            assert(ids[j as int] == ids[i as int]);
            return true;
        }
        j += 1;
    }
    false
}

/// Holds a model's reasoning efforts to the rules.
pub fn validate_reasoning_efforts(manifest_model: &ProviderManifestModel) -> (result: Result<
    (),
    String,
>)
    ensures
        reported(result) == efforts_check(*manifest_model),
{
    let efforts = &manifest_model.supported_reasoning_efforts;
    if efforts.len() > MAX_REASONING_EFFORTS_PER_MODEL {
        let rest = count_text(MAX_REASONING_EFFORTS_PER_MODEL, " supported reasoning efforts");
        return Err(model_text(manifest_model.id.as_str(), rest.as_str()));
    }
    let ghost all = efforts@.len();
    if let Some(effort) = &manifest_model.default_reasoning_effort {
        let valid = validate_model_visible_token(
            "reasoning effort id",
            effort.as_str(),
            MAX_REASONING_EFFORT_ID_BYTES,
        );
        if let Err(message) = valid {
            proof {
                lemma_effort_ids_check_stops(*manifest_model, 0, all);
            }
            return Err(message);
        }
    }
    let mut i: usize = 0;
    while i < efforts.len()
        invariant
            i <= efforts@.len() == all <= MAX_REASONING_EFFORTS_PER_MODEL,
            *efforts == manifest_model.supported_reasoning_efforts,
            effort_ids_check(*manifest_model, i as nat) is Ok,
        decreases efforts@.len() - i,
    {
        let valid = validate_model_visible_token(
            "reasoning effort id",
            efforts[i].as_str(),
            MAX_REASONING_EFFORT_ID_BYTES,
        );
        if let Err(message) = valid {
            proof {
                lemma_effort_ids_check_stops(*manifest_model, (i + 1) as nat, all);
            }
            return Err(message);
        }
        i += 1;
    }
    let mut i: usize = 0;
    while i < efforts.len()
        invariant
            i <= efforts@.len() == all <= MAX_REASONING_EFFORTS_PER_MODEL,
            *efforts == manifest_model.supported_reasoning_efforts,
            effort_ids_check(*manifest_model, all) is Ok,
            unique_efforts_check(*manifest_model, i as nat) is Ok,
        decreases efforts@.len() - i,
    {
        if effort_repeats(efforts, i) {
            let rest = " contains duplicate supported reasoning effort ".to_owned().concat(
                efforts[i].as_str(),
            );
            proof {
                lemma_unique_efforts_check_stops(*manifest_model, (i + 1) as nat, all);
            }
            return Err(model_text(manifest_model.id.as_str(), rest.as_str()));
        }
        i += 1;
    }
    Ok(())
}

pub(crate) proof fn lemma_effort_ids_check_stops(model: ProviderManifestModel, k: nat, n: nat)
    requires
        k <= n,
        effort_ids_check(model, k) is Err,
    ensures
        effort_ids_check(model, n) == effort_ids_check(model, k),
    decreases n,
{
    if k < n {
        lemma_effort_ids_check_stops(model, k, (n - 1) as nat);
    }
}

pub(crate) proof fn lemma_unique_efforts_check_stops(model: ProviderManifestModel, k: nat, n: nat)
    requires
        k <= n,
        unique_efforts_check(model, k) is Err,
    ensures
        unique_efforts_check(model, n) == unique_efforts_check(model, k),
    decreases n,
{
    if k < n {
        lemma_unique_efforts_check_stops(model, k, (n - 1) as nat);
    }
}

/// The name under which a service tier can be chosen. Tiers that are known by
/// name keep theirs; every other tier is named in a space of its own.
pub open spec fn command_name(id: Seq<char>) -> Seq<char> {
    if id == ServiceTier::Fast.wire_value() {
        "fast"@
    } else if id == ServiceTier::Flex.wire_value() {
        "flex"@
    } else {
        "tier-"@ + id
    }
}

/// The name under which the service tier `id` can be chosen.
pub fn service_tier_command_name(id: &str) -> (name: String)
    ensures
        name@ == command_name(id@),
{
    if same_text(id, ServiceTier::Fast.request_value()) {
        "fast".to_owned()
    } else if same_text(id, ServiceTier::Flex.request_value()) {
        "flex".to_owned()
    } else {
        "tier-".to_owned().concat(id)
    }
}

/// The ids of the service tiers.
pub open spec fn tier_ids(tiers: Seq<ProviderManifestServiceTier>) -> Seq<Seq<char>> {
    tiers.map_values(|tier: ProviderManifestServiceTier| tier.id@)
}

/// The names of the service tiers, with case put aside.
pub open spec fn tier_commands(tiers: Seq<ProviderManifestServiceTier>) -> Seq<Seq<char>> {
    tiers.map_values(
        |tier: ProviderManifestServiceTier| text::lowercase(command_name(tier.id@)),
    )
}

/// A tier id is a value that a request can carry as it stands: neither the
/// value for standard routing, nor another spelling of a known tier.
pub open spec fn tier_id_check(id: Seq<char>) -> Check {
    if id == SERVICE_TIER_DEFAULT_REQUEST_VALUE@ {
        Err(
            "provider manifest service tier id `"@ + SERVICE_TIER_DEFAULT_REQUEST_VALUE@
                + "` is reserved for standard routing"@,
        )
    } else {
        match ServiceTier::named_by(id) {
            Some(tier) if id != tier.wire_value() => Err(
                "provider manifest service tier id `"@ + id
                    + "` is reserved for a legacy alias; advertise `"@ + tier.wire_value()
                    + "` instead"@,
            ),
            _ => Ok(()),
        }
    }
}

/// What a service tier says of itself: a showable id of its own, a name and a
/// description.
pub open spec fn tier_text_check(tier: ProviderManifestServiceTier) -> Check {
    both(
        token_check("service tier id"@, tier.id@, MAX_SERVICE_TIER_ID_BYTES as nat),
        both(
            tier_id_check(tier.id@),
            both(
                prose_check("service tier name"@, tier.name@, MAX_SERVICE_TIER_NAME_BYTES as nat),
                both(
                    if tier.name@.len() == 0 {
                        Err("provider manifest service tier name must be non-empty"@)
                    } else {
                        Ok(())
                    },
                    prose_check(
                        "service tier description"@,
                        tier.description@,
                        MAX_SERVICE_TIER_DESCRIPTION_BYTES as nat,
                    ),
                ),
            ),
        ),
    )
}

/// The service tier at `i` differs from every earlier one, in its id and in the
/// name under which it is chosen.
pub open spec fn tier_unique_check(model: ProviderManifestModel, i: int) -> Check {
    let ids = tier_ids(model.service_tiers@);
    let commands = tier_commands(model.service_tiers@);
    if repeats(ids, i) {
        Err(model_message(model.id@, " contains duplicate service tier id "@ + ids[i]))
    } else if repeats(commands, i) {
        Err(
            model_message(
                model.id@,
                " contains duplicate normalized service tier command "@ + commands[i],
            ),
        )
    } else {
        Ok(())
    }
}

/// The first `n` service tiers, in order.
pub open spec fn first_tiers_check(model: ProviderManifestModel, n: nat) -> Check
    decreases n,
{
    if n == 0 {
        Ok(())
    } else {
        both(
            first_tiers_check(model, (n - 1) as nat),
            both(tier_text_check(model.service_tiers@[n - 1]), tier_unique_check(model, n - 1)),
        )
    }
}

/// The service tiers of a model: not too many, each sound, none twice.
pub open spec fn tiers_check(model: ProviderManifestModel) -> Check {
    let n = model.service_tiers@.len();
    if n > MAX_SERVICE_TIERS_PER_MODEL {
        Err(
            model_message(
                model.id@,
                count_rest(MAX_SERVICE_TIERS_PER_MODEL as nat, " service tiers"@),
            ),
        )
    } else {
        first_tiers_check(model, n)
    }
}

pub(crate) proof fn lemma_first_tiers_check_stops(model: ProviderManifestModel, k: nat, n: nat)
    requires
        k <= n,
        first_tiers_check(model, k) is Err,
    ensures
        first_tiers_check(model, n) == first_tiers_check(model, k),
    decreases n,
{
    if k < n {
        lemma_first_tiers_check_stops(model, k, (n - 1) as nat);
    }
}

fn validate_tier_text(tier: &ProviderManifestServiceTier) -> (result: Result<(), String>)
    ensures
        reported(result) == tier_text_check(*tier),
{
    validate_model_visible_token("service tier id", tier.id.as_str(), MAX_SERVICE_TIER_ID_BYTES)?;
    if same_text(tier.id.as_str(), SERVICE_TIER_DEFAULT_REQUEST_VALUE) {
        return Err(
            "provider manifest service tier id `".to_owned().concat(
                SERVICE_TIER_DEFAULT_REQUEST_VALUE,
            ).concat("` is reserved for standard routing"),
        );
    }
    if let Some(canonical) = ServiceTier::from_request_value(tier.id.as_str()) {
        // A manifest id goes into requests as it stands. Accepting another
        // spelling would advertise one id and send a different one.
        if !same_text(tier.id.as_str(), canonical.request_value()) {
            return Err(
                "provider manifest service tier id `".to_owned().concat(tier.id.as_str()).concat(
                    "` is reserved for a legacy alias; advertise `",
                ).concat(canonical.request_value()).concat("` instead"),
            );
        }
    }
    validate_bounded_single_line_text(
        "service tier name",
        tier.name.as_str(),
        MAX_SERVICE_TIER_NAME_BYTES,
    )?;
    if tier.name.as_str().is_empty() {
        return Err("provider manifest service tier name must be non-empty".to_owned());
    }
    validate_bounded_single_line_text(
        "service tier description",
        tier.description.as_str(),
        MAX_SERVICE_TIER_DESCRIPTION_BYTES,
    )
}

fn validate_tier_unique(manifest_model: &ProviderManifestModel, i: usize) -> (result: Result<
    (),
    String,
>)
    requires
        i < manifest_model.service_tiers@.len(),
    ensures
        reported(result) == tier_unique_check(*manifest_model, i as int),
{
    let tiers = &manifest_model.service_tiers;
    let ghost ids = tier_ids(tiers@);
    let ghost commands = tier_commands(tiers@);
    let command = ascii_lowercase(service_tier_command_name(tiers[i].id.as_str()).as_str());
    let mut same_command: bool = false;
    let mut j: usize = 0;
    while j < i
        invariant
            j <= i < tiers@.len(),
            *tiers == manifest_model.service_tiers,
            ids == tier_ids(tiers@),
            commands == tier_commands(tiers@),
            command@ == commands[i as int],
            forall|k: int| 0 <= k < j ==> #[trigger] ids[k] != ids[i as int],
            same_command == exists|k: int|
                0 <= k < j && #[trigger] commands[k] == commands[i as int],
        decreases i - j,
    {
        if same_text(tiers[j].id.as_str(), tiers[i].id.as_str()) {
            assert(ids[j as int] == ids[i as int]);
            let rest = " contains duplicate service tier id ".to_owned().concat(
                tiers[i].id.as_str(),
            );
            return Err(model_text(manifest_model.id.as_str(), rest.as_str()));
        }
        let earlier = ascii_lowercase(service_tier_command_name(tiers[j].id.as_str()).as_str());
        if same_text(earlier.as_str(), command.as_str()) {
            assert(commands[j as int] == commands[i as int]);
            same_command = true;
        }
        assert(commands[j as int] == earlier@);
        j += 1;
    }
    if same_command {
        let rest = " contains duplicate normalized service tier command ".to_owned().concat(
            command.as_str(),
        );
        return Err(model_text(manifest_model.id.as_str(), rest.as_str()));
    }
    Ok(())
}

/// Holds a model's service tiers to the rules.
pub fn validate_service_tiers(manifest_model: &ProviderManifestModel) -> (result: Result<
    (),
    String,
>)
    ensures
        reported(result) == tiers_check(*manifest_model),
{
    let tiers = &manifest_model.service_tiers;
    if tiers.len() > MAX_SERVICE_TIERS_PER_MODEL {
        let rest = count_text(MAX_SERVICE_TIERS_PER_MODEL, " service tiers");
        return Err(model_text(manifest_model.id.as_str(), rest.as_str()));
    }
    let mut i: usize = 0;
    while i < tiers.len()
        invariant
            i <= tiers@.len() <= MAX_SERVICE_TIERS_PER_MODEL,
            *tiers == manifest_model.service_tiers,
            first_tiers_check(*manifest_model, i as nat) is Ok,
        decreases tiers@.len() - i,
    {
        let valid = validate_tier_text(&tiers[i]);
        if let Err(message) = valid {
            proof {
                lemma_first_tiers_check_stops(*manifest_model, (i + 1) as nat, tiers@.len());
            }
            return Err(message);
        }
        let unique = validate_tier_unique(manifest_model, i);
        if let Err(message) = unique {
            proof {
                lemma_first_tiers_check_stops(*manifest_model, (i + 1) as nat, tiers@.len());
            }
            return Err(message);
        }
        i += 1;
    }
    Ok(())
}

/// A modality stands twice in the list.
pub open spec fn repeats_modality(modalities: Seq<InputModality>) -> bool {
    exists|i: int, j: int|
        0 <= i < j < modalities.len() && #[trigger] modalities[i] == #[trigger] modalities[j]
}

/// The input modalities of a model: some, not too many, none twice, and text
/// among them.
pub open spec fn modalities_check(model: ProviderManifestModel) -> Check {
    let modalities = model.input_modalities@;
    if modalities.len() == 0 {
        Err(model_message(model.id@, " must contain at least one input modality"@))
    } else if modalities.len() > MAX_INPUT_MODALITIES_PER_MODEL {
        Err(
            model_message(
                model.id@,
                count_rest(MAX_INPUT_MODALITIES_PER_MODEL as nat, " input modalities"@),
            ),
        )
    } else if repeats_modality(modalities) {
        Err(model_message(model.id@, " contains duplicate input modality"@))
    } else if !modalities.contains(InputModality::Text) {
        Err(model_message(model.id@, " must support text input"@))
    } else {
        Ok(())
    }
}

/// Holds a model's input modalities to the rules.
pub fn validate_input_modalities(manifest_model: &ProviderManifestModel) -> (result: Result<
    (),
    String,
>)
    ensures
        reported(result) == modalities_check(*manifest_model),
{
    let modalities = &manifest_model.input_modalities;
    let id = manifest_model.id.as_str();
    if modalities.len() == 0 {
        return Err(model_text(id, " must contain at least one input modality"));
    }
    if modalities.len() > MAX_INPUT_MODALITIES_PER_MODEL {
        let rest = count_text(MAX_INPUT_MODALITIES_PER_MODEL, " input modalities");
        return Err(model_text(id, rest.as_str()));
    }
    let mut has_text: bool = false;
    let mut j: usize = 0;
    while j < modalities.len()
        invariant
            j <= modalities@.len() <= MAX_INPUT_MODALITIES_PER_MODEL,
            0 < modalities@.len(),
            *modalities == manifest_model.input_modalities,
            id@ == manifest_model.id@,
            !repeats_modality(modalities@.take(j as int)),
            has_text == modalities@.take(j as int).contains(InputModality::Text),
        decreases modalities@.len() - j,
    {
        let ghost seen = modalities@.take(j as int);
        let ghost now = modalities@.take(j + 1);
        assert(now =~= seen.push(modalities@[j as int]));
        let mut i: usize = 0;
        while i < j
            invariant
                i <= j < modalities@.len() <= MAX_INPUT_MODALITIES_PER_MODEL,
                *modalities == manifest_model.input_modalities,
                id@ == manifest_model.id@,
                forall|k: int| 0 <= k < i ==> modalities@[k] != modalities@[j as int],
            decreases j - i,
        {
            if modalities[i] == modalities[j] {
                assert(modalities@[i as int] == modalities@[j as int]);
                return Err(model_text(id, " contains duplicate input modality"));
            }
            i += 1;
        }
        if modalities[j] == InputModality::Text {
            has_text = true;
        }
        proof {
            assert(now.last() == modalities@[j as int]);
            assert(forall|k: int| 0 <= k < j ==> now[k] == seen[k]);
            if has_text {
                if seen.contains(InputModality::Text) {
                    let k = choose|k: int| 0 <= k < seen.len() && seen[k] == InputModality::Text;
                    assert(now[k] == InputModality::Text);
                } else {
                    assert(now[j as int] == InputModality::Text);
                }
            }
            if repeats_modality(now) {
                let (a, b) = choose|a: int, b: int|
                    0 <= a < b < now.len() && #[trigger] now[a] == #[trigger] now[b];
                if b < j {
                    assert(seen[a] == seen[b]);
                }
            }
        }
        j += 1;
    }
    assert(modalities@.take(j as int) =~= modalities@);
    if !has_text {
        return Err(model_text(id, " must support text input"));
    }
    Ok(())
}

} // verus!
