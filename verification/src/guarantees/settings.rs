//! What reading the configuration guarantees: which variable each setting comes from, and
//! which rails are on.

use vstd::prelude::*;

use crate::config::{
    debug_form, enabled_rails, first_unknown, listed, parse_enabled_rails, require_var, variable,
    Config, EnabledRails, Environment, Setting, Variable, VariableView,
};
use crate::error::AppError;
use crate::text::{split, trim};

verus! {

// Variables.

/// Whether the setting at `i` is the first of this variable.
pub open spec fn is_setting(settings: Seq<Setting>, name: Seq<char>, i: int) -> bool {
    &&& 0 <= i < settings.len()
    &&& settings[i].name@ == name
    &&& forall|j: int| 0 <= j < i ==> (#[trigger] settings[j]).name@ != name
}

/// Whether the environment gives a variable this text.
pub open spec fn gives(env: Environment, name: Seq<char>, text: Seq<char>) -> bool {
    exists|i: int| #[trigger]
        is_setting(env.settings@, name, i) && env.settings@[i].variable@ == VariableView::Value(
            text,
        )
}

/// Whether the environment gives a variable something that is no text.
pub open spec fn garbles(env: Environment, name: Seq<char>) -> bool {
    exists|i: int| #[trigger]
        is_setting(env.settings@, name, i) && env.settings@[i].variable is NotUnicode
}

/// Whether the environment gives a variable nothing.
pub open spec fn leaves_out(env: Environment, name: Seq<char>) -> bool {
    forall|i: int| #[trigger]
        is_setting(env.settings@, name, i) ==> env.settings@[i].variable is Absent
}

/// A variable is seen as it is.
pub proof fn a_variable_is_seen_as_it_is(variable: Variable)
    ensures
        match variable {
            Variable::Absent => variable@ == VariableView::Absent,
            Variable::NotUnicode => variable@ == VariableView::NotUnicode,
            Variable::Value(text) => variable@ == VariableView::Value(text@),
        },
{
}

proof fn lemma_variable_from(env: Environment, name: Seq<char>, from: int)
    requires
        0 <= from <= env.settings@.len(),
        forall|j: int| 0 <= j < from ==> (#[trigger] env.settings@[j]).name@ != name,
    ensures
        ({
            let found = variable(env@.subrange(from, env@.len() as int), name);
            ||| exists|i: int| #[trigger]
                is_setting(env.settings@, name, i) && env.settings@[i].variable@ == found
            ||| found == VariableView::Absent && forall|i: int| !#[trigger]
                is_setting(env.settings@, name, i)
        }),
    decreases env.settings@.len() - from,
{
    let rest = env@.subrange(from, env@.len() as int);
    if from < env.settings@.len() {
        assert(rest[0] == (env.settings@[from].name@, env.settings@[from].variable@));
        assert(rest.drop_first() =~= env@.subrange(from + 1, env@.len() as int));
        if env.settings@[from].name@ == name {
            assert(is_setting(env.settings@, name, from));
        } else {
            lemma_variable_from(env, name, from + 1);
        }
    } else {
        assert forall|i: int| !#[trigger] is_setting(env.settings@, name, i) by {
            if 0 <= i < env.settings@.len() {
                assert(env.settings@[i].name@ != name);
            }
        }
    }
}

proof fn lemma_variable(env: Environment, name: Seq<char>)
    ensures
        match variable(env@, name) {
            VariableView::Value(text) => gives(env, name, text),
            VariableView::NotUnicode => garbles(env, name),
            VariableView::Absent => leaves_out(env, name),
        },
        forall|text: Seq<char>| #[trigger]
            gives(env, name, text) ==> variable(env@, name) == VariableView::Value(text),
        garbles(env, name) ==> variable(env@, name) == VariableView::NotUnicode,
        leaves_out(env, name) ==> variable(env@, name) == VariableView::Absent,
{
    assert(env@.subrange(0, env@.len() as int) =~= env@);
    lemma_variable_from(env, name, 0);
    let found = variable(env@, name);
    assert forall|i: int| #[trigger] is_setting(env.settings@, name, i) implies
        env.settings@[i].variable@ == found by {
        let k = choose|k: int| #[trigger]
            is_setting(env.settings@, name, k) && env.settings@[k].variable@ == found;
        assert(env.settings@[i].name@ == name && env.settings@[k].name@ == name);
        if i < k {
            assert(env.settings@[i].name@ != name);
        }
        if k < i {
            assert(env.settings@[k].name@ != name);
        }
    }
}

/// What is read of a variable is what the environment says first of its exact name, whatever
/// other variables there are.
pub proof fn a_variable_is_found_by_its_name(env: &Environment, name: &str, found: &Variable)
    requires
        call_ensures(Environment::var, (env, name), found),
    ensures
        match *found {
            Variable::Value(text) => gives(*env, name@, text@),
            Variable::NotUnicode => garbles(*env, name@),
            Variable::Absent => leaves_out(*env, name@),
        },
{
    lemma_variable(*env, name@);
}

/// A required variable is read verbatim. Where it is missing, and where it is no text, the
/// error says which variable it is.
pub proof fn a_required_variable_is_read_verbatim(
    env: &Environment,
    name: &'static str,
    read: Result<String, AppError>,
)
    requires
        call_ensures(require_var, (env, name), read),
    ensures
        match read {
            Ok(text) => gives(*env, name@, text@),
            Err(AppError::MissingConfig(missing)) => leaves_out(*env, name@) && missing@ == name@,
            Err(AppError::InvalidConfig(detail)) => garbles(*env, name@) && detail@ == name@
                + ": not valid Unicode"@,
            Err(_) => false,
        },
{
    lemma_variable(*env, name@);
    if let Err(err) = read {
        assert(err@ is MissingConfig || err@ is InvalidConfig);
    }
}

// Rails.

/// Whether `name` names a rail.
pub open spec fn is_rail_name(name: Seq<char>) -> bool {
    name == seq!['x', '4', '0', '2'] || name == seq!['m', 'p', 'p']
}

/// Whether a rail is among the names.
pub open spec fn is_among(names: Seq<String>, name: Seq<char>) -> bool {
    exists|i: int| 0 <= i < names.len() && (#[trigger] names[i])@ == name
}

/// Whether `names` are the trimmed parts of a trimmed value between its commas.
pub open spec fn are_listed(
    names: Seq<String>,
    value: &str,
    whole: String,
    parts: Vec<String>,
) -> bool {
    &&& call_ensures(trim, (value,), whole)
    &&& exists|inner: &str|
        inner@ == whole@ && #[trigger] call_ensures(split, (inner, ','), parts)
    &&& names.len() == parts@.len()
    &&& forall|i: int|
        0 <= i < names.len() ==> exists|part: &str|
            part@ == parts@[i]@ && #[trigger] call_ensures(trim, (part,), #[trigger] names[i])
}

proof fn lemma_listed(names: Seq<String>, value: &str, whole: String, parts: Vec<String>)
    requires
        are_listed(names, value, whole, parts),
    ensures
        names.len() == listed(value@).len(),
        forall|i: int| 0 <= i < names.len() ==> (#[trigger] names[i])@ == listed(value@)[i],
{
    let inner = choose|inner: &str|
        inner@ == whole@ && #[trigger] call_ensures(split, (inner, ','), parts);
    assert forall|i: int| 0 <= i < names.len() implies (#[trigger] names[i])@ == listed(
        value@,
    )[i] by {
        let part = choose|part: &str|
            part@ == parts@[i]@ && #[trigger] call_ensures(trim, (part,), names[i]);
        assert(parts@[i]@ == crate::text::pieces(whole@, ',')[i]);
    }
}

proof fn lemma_rail_names()
    ensures
        "x402"@ == seq!['x', '4', '0', '2'],
        "mpp"@ == seq!['m', 'p', 'p'],
{
    reveal_strlit("x402");
    reveal_strlit("mpp");
    assert("x402"@ =~= seq!['x', '4', '0', '2']);
    assert("mpp"@ =~= seq!['m', 'p', 'p']);
}

proof fn lemma_first_unknown(names: Seq<Seq<char>>)
    ensures
        match first_unknown(names) {
            Some(other) => exists|i: int|
                #![trigger names[i]]
                0 <= i < names.len() && names[i] == other && !is_rail_name(other) && forall|j: int|
                    0 <= j < i ==> is_rail_name(#[trigger] names[j]),
            None => forall|i: int| 0 <= i < names.len() ==> is_rail_name(#[trigger] names[i]),
        },
    decreases names.len(),
{
    lemma_rail_names();
    if names.len() > 0 {
        let rest = names.drop_first();
        lemma_first_unknown(rest);
        if is_rail_name(names[0]) {
            match first_unknown(rest) {
                Some(other) => {
                    let i = choose|i: int|
                        #![trigger rest[i]]
                        0 <= i < rest.len() && rest[i] == other && !is_rail_name(other) && forall|
                            j: int,
                        |
                            0 <= j < i ==> is_rail_name(#[trigger] rest[j]);
                    assert(names[i + 1] == other);
                    assert forall|j: int| 0 <= j < i + 1 implies is_rail_name(
                        #[trigger] names[j],
                    ) by {
                        if j > 0 {
                            assert(rest[j - 1] == names[j]);
                        }
                    }
                },
                None => {
                    assert forall|i: int| 0 <= i < names.len() implies is_rail_name(
                        #[trigger] names[i],
                    ) by {
                        if i > 0 {
                            assert(rest[i - 1] == names[i]);
                        }
                    }
                },
            }
        } else {
            assert(names[0] == first_unknown(names)->0);
        }
    }
}

/// Rails are on exactly where they are listed, and a list with anything else in it, or with
/// nothing in it, is refused: a typo never turns a rail off.
pub proof fn rails_are_on_where_listed(
    value: &str,
    parsed: Result<EnabledRails, AppError>,
    whole: String,
    parts: Vec<String>,
    names: Seq<String>,
)
    requires
        call_ensures(parse_enabled_rails, (value,), parsed),
        are_listed(names, value, whole, parts),
    ensures
        parsed is Ok <==> whole@.len() > 0 && forall|i: int|
            0 <= i < names.len() ==> is_rail_name((#[trigger] names[i])@),
        parsed matches Ok(rails) ==> {
            &&& rails.x402 <==> is_among(names, seq!['x', '4', '0', '2'])
            &&& rails.mpp <==> is_among(names, seq!['m', 'p', 'p'])
            &&& rails.x402 || rails.mpp
        },
        parsed matches Err(err) ==> {
            &&& err matches AppError::InvalidConfig(detail)
            &&& whole@.len() == 0 ==> detail@
                == "ENABLED_RAILS: empty; unset it to enable both rails, or list a subset of x402,mpp"@
            &&& whole@.len() > 0 ==> exists|i: int|
                {
                    &&& 0 <= i < names.len()
                    &&& !is_rail_name((#[trigger] names[i])@)
                    &&& forall|j: int| 0 <= j < i ==> is_rail_name((#[trigger] names[j])@)
                    &&& detail@ == "ENABLED_RAILS: unknown rail "@ + debug_form(names[i]@)
                        + ", expected a comma-separated subset of x402,mpp"@
                }
        },
{
    lemma_listed(names, value, whole, parts);
    lemma_rail_names();
    let all = listed(value@);
    lemma_first_unknown(all);
    crate::text::lemma_pieces_nonempty(whole@, ',');
    match parsed {
        Ok(rails) => {
            assert forall|i: int| 0 <= i < names.len() implies is_rail_name(
                (#[trigger] names[i])@,
            ) by {
                assert(is_rail_name(all[i]));
            }
            if all.contains("x402"@) {
                let i = choose|i: int| 0 <= i < all.len() && all[i] == "x402"@;
                assert(names[i]@ == "x402"@);
            }
            if all.contains("mpp"@) {
                let i = choose|i: int| 0 <= i < all.len() && all[i] == "mpp"@;
                assert(names[i]@ == "mpp"@);
            }
            if is_among(names, "x402"@) {
                let i = choose|i: int| 0 <= i < names.len() && (#[trigger] names[i])@ == "x402"@;
                assert(all[i] == "x402"@);
            }
            if is_among(names, "mpp"@) {
                let i = choose|i: int| 0 <= i < names.len() && (#[trigger] names[i])@ == "mpp"@;
                assert(all[i] == "mpp"@);
            }
            assert(is_rail_name(names[0]@));
            assert(is_among(names, names[0]@));
        },
        Err(err) => {
            assert(err@ is InvalidConfig);
            assert(err is InvalidConfig);
            if whole@.len() > 0 {
                let other = first_unknown(all)->0;
                let i = choose|i: int|
                    #![trigger all[i]]
                    0 <= i < all.len() && all[i] == other && !is_rail_name(other) && forall|
                        j: int,
                    |
                        0 <= j < i ==> is_rail_name(#[trigger] all[j]);
                assert(names[i]@ == other);
                assert forall|j: int| 0 <= j < i implies is_rail_name((#[trigger] names[j])@) by {
                    assert(is_rail_name(all[j]));
                }
            }
        },
    }
}

/// Both rails are on where nothing is said of them. What is said is taken as the list it is,
/// and what is no text is refused.
pub proof fn both_rails_are_on_by_default(
    env: &Environment,
    read: Result<EnabledRails, AppError>,
    value: &str,
    parsed: Result<EnabledRails, AppError>,
)
    requires
        call_ensures(enabled_rails, (env,), read),
        call_ensures(parse_enabled_rails, (value,), parsed),
    ensures
        leaves_out(*env, "ENABLED_RAILS"@) ==> read is Ok && read->Ok_0.x402 && read->Ok_0.mpp,
        garbles(*env, "ENABLED_RAILS"@) ==> read is Err && read->Err_0 is InvalidConfig,
        gives(*env, "ENABLED_RAILS"@, value@) ==> match (read, parsed) {
            (Ok(rails), Ok(own)) => rails == own,
            (Err(err), Err(own)) => err@ == own@,
            _ => false,
        },
{
    lemma_variable(*env, "ENABLED_RAILS"@);
    if let Err(err) = read {
        if garbles(*env, "ENABLED_RAILS"@) {
            assert(err@ is InvalidConfig);
        }
    }
}

// The configuration.

/// Whether a config says of each setting what the environment gives for it.
pub open spec fn is_given_by(config: Config, env: Environment) -> bool {
    &&& gives(env, "BRAVE_SEARCH_API_KEY"@, config.brave_search_api_key@)
    &&& {
        ||| gives(env, "BRAVE_SEARCH_API_BASE_URL"@, config.brave_search_api_base_url@)
        ||| config.brave_search_api_base_url@ == "https://api.search.brave.com"@ && forall|
            text: Seq<char>,
        |
            !#[trigger] gives(env, "BRAVE_SEARCH_API_BASE_URL"@, text)
    }
    &&& config.x402 matches Some(rail) ==> gives(
        env,
        "X402_FACILITATOR_URL"@,
        rail.facilitator_url@,
    )
    &&& config.mpp matches Some(rail) ==> gives(env, "MPP_RPC_URL"@, rail.rpc_url@) && gives(
        env,
        "MPP_SECRET_KEY"@,
        rail.secret_key@,
    )
    &&& match config.restricted_address_s3_bucket {
        Some(bucket) => bucket@.len() > 0 && gives(env, "RESTRICTED_ADDRESS_S3_BUCKET"@, bucket@),
        None => forall|text: Seq<char>| #[trigger]
            gives(env, "RESTRICTED_ADDRESS_S3_BUCKET"@, text) ==> text.len() == 0,
    }
    &&& config.allow_testnet <==> gives(env, "ALLOW_TESTNET"@, seq!['t', 'r', 'u', 'e'])
}

/// Whether an environment gives a variable no text.
pub open spec fn does_not_give(env: Environment, name: Seq<char>) -> bool {
    forall|text: Seq<char>| !#[trigger] gives(env, name, text)
}

/// Every setting comes from its own variable, verbatim, and a rail is configured exactly
/// where it is on. The configuration is refused exactly where a variable that is needed is
/// not given: the API key, a readable list of rails, and what each rail that is on needs.
pub proof fn each_setting_comes_from_its_variable(
    env: &Environment,
    read: Result<Config, AppError>,
    rails: Result<EnabledRails, AppError>,
)
    requires
        call_ensures(Config::from_env, (env,), read),
        call_ensures(enabled_rails, (env,), rails),
    ensures
        read matches Ok(config) ==> {
            &&& is_given_by(config, *env)
            &&& rails matches Ok(on)
            &&& config.x402 is Some <==> on.x402
            &&& config.mpp is Some <==> on.mpp
        },
        read is Err <==> {
            ||| does_not_give(*env, "BRAVE_SEARCH_API_KEY"@)
            ||| rails is Err
            ||| rails->Ok_0.x402 && does_not_give(*env, "X402_FACILITATOR_URL"@)
            ||| rails->Ok_0.mpp && does_not_give(*env, "MPP_RPC_URL"@)
            ||| rails->Ok_0.mpp && does_not_give(*env, "MPP_SECRET_KEY"@)
        },
{
    reveal_strlit("true");
    assert("true"@ =~= seq!['t', 'r', 'u', 'e']);
    lemma_variable(*env, "BRAVE_SEARCH_API_KEY"@);
    lemma_variable(*env, "BRAVE_SEARCH_API_BASE_URL"@);
    lemma_variable(*env, "X402_FACILITATOR_URL"@);
    lemma_variable(*env, "MPP_RPC_URL"@);
    lemma_variable(*env, "MPP_SECRET_KEY"@);
    lemma_variable(*env, "RESTRICTED_ADDRESS_S3_BUCKET"@);
    lemma_variable(*env, "ALLOW_TESTNET"@);
}

/// Whether an error tells what is wrong with a variable: that it is missing, or that it is no
/// text.
pub open spec fn is_fault_of(err: AppError, env: Environment, name: Seq<char>) -> bool {
    match err {
        AppError::MissingConfig(missing) => leaves_out(env, name) && missing@ == name,
        AppError::InvalidConfig(detail) => garbles(env, name) && detail@ == name
            + ": not valid Unicode"@,
        _ => false,
    }
}

proof fn lemma_fault(err: AppError, env: Environment, name: Seq<char>)
    requires
        does_not_give(env, name),
        crate::config::required(env@, name) == Err::<Seq<char>, crate::error::ErrorView>(err@),
    ensures
        is_fault_of(err, env, name),
{
    lemma_variable(env, name);
    assert(err@ is MissingConfig || err@ is InvalidConfig);
    assert(err is MissingConfig || err is InvalidConfig);
}

/// The error tells the first fault: of the API key, then of the list of rails, then of the
/// x402 rail's variable, then of the MPP rail's.
pub proof fn the_first_fault_is_told(
    env: &Environment,
    read: Result<Config, AppError>,
    rails: Result<EnabledRails, AppError>,
)
    requires
        call_ensures(Config::from_env, (env,), read),
        call_ensures(enabled_rails, (env,), rails),
        read is Err,
    ensures
        if does_not_give(*env, "BRAVE_SEARCH_API_KEY"@) {
            is_fault_of(read->Err_0, *env, "BRAVE_SEARCH_API_KEY"@)
        } else if rails is Err {
            read->Err_0@ == rails->Err_0@
        } else if rails->Ok_0.x402 && does_not_give(*env, "X402_FACILITATOR_URL"@) {
            is_fault_of(read->Err_0, *env, "X402_FACILITATOR_URL"@)
        } else if does_not_give(*env, "MPP_RPC_URL"@) {
            rails->Ok_0.mpp && is_fault_of(read->Err_0, *env, "MPP_RPC_URL"@)
        } else {
            rails->Ok_0.mpp && is_fault_of(read->Err_0, *env, "MPP_SECRET_KEY"@)
        },
{
    let err = read->Err_0;
    lemma_variable(*env, "BRAVE_SEARCH_API_KEY"@);
    lemma_variable(*env, "X402_FACILITATOR_URL"@);
    lemma_variable(*env, "MPP_RPC_URL"@);
    lemma_variable(*env, "MPP_SECRET_KEY"@);
    if does_not_give(*env, "BRAVE_SEARCH_API_KEY"@) {
        lemma_fault(err, *env, "BRAVE_SEARCH_API_KEY"@);
    } else if rails is Err {
    } else if rails->Ok_0.x402 && does_not_give(*env, "X402_FACILITATOR_URL"@) {
        lemma_fault(err, *env, "X402_FACILITATOR_URL"@);
    } else if does_not_give(*env, "MPP_RPC_URL"@) {
        lemma_fault(err, *env, "MPP_RPC_URL"@);
    } else {
        lemma_fault(err, *env, "MPP_SECRET_KEY"@);
    }
}

/// Whether two environments say the same of a variable.
pub open spec fn agree(env: Environment, other: Environment, name: Seq<char>) -> bool {
    &&& forall|text: Seq<char>| #[trigger] gives(env, name, text) <==> gives(other, name, text)
    &&& garbles(env, name) <==> garbles(other, name)
    &&& leaves_out(env, name) <==> leaves_out(other, name)
}

proof fn lemma_agree(env: Environment, other: Environment, name: Seq<char>)
    requires
        agree(env, other, name),
    ensures
        variable(env@, name) == variable(other@, name),
{
    lemma_variable(env, name);
    lemma_variable(other, name);
    if let VariableView::Value(text) = variable(env@, name) {
        assert(gives(env, name, text));
    }
}

/// The listed variables are all that the configuration is read from: environments that say
/// the same of them give the same configuration, whatever else they hold.
pub proof fn only_the_listed_variables_are_read(
    names: Vec<&'static str>,
    env: &Environment,
    other: &Environment,
    read: Result<Config, AppError>,
    other_read: Result<Config, AppError>,
)
    requires
        call_ensures(Config::variables, (), names),
        forall|i: int| 0 <= i < names@.len() ==> agree(*env, *other, (#[trigger] names@[i])@),
        call_ensures(Config::from_env, (env,), read),
        call_ensures(Config::from_env, (other,), other_read),
    ensures
        match (read, other_read) {
            (Ok(config), Ok(other_config)) => same_but_rails(config, other_config) && same_x402(
                config,
                other_config,
            ) && same_mpp(config, other_config),
            (Err(err), Err(other_err)) => err@ == other_err@,
            _ => false,
        },
{
    assert forall|i: int| 0 <= i < names@.len() implies variable(env@, (#[trigger] names@[i])@)
        == variable(other@, names@[i]@) by {
        lemma_agree(*env, *other, names@[i]@);
    }
    assert(names@[0]@ == "BRAVE_SEARCH_API_KEY"@ && names@[1]@ == "BRAVE_SEARCH_API_BASE_URL"@);
    assert(names@[2]@ == "ENABLED_RAILS"@ && names@[3]@ == "X402_FACILITATOR_URL"@);
    assert(names@[4]@ == "MPP_RPC_URL"@ && names@[5]@ == "MPP_SECRET_KEY"@);
    assert(names@[6]@ == "RESTRICTED_ADDRESS_S3_BUCKET"@ && names@[7]@ == "ALLOW_TESTNET"@);
    assert(crate::config::configured(env@) == crate::config::configured(other@));
    if let (Ok(config), Ok(other_config)) = (read, other_read) {
        lemma_same_config(config, other_config);
    }
}

/// Whether two configs are the same but for their rails.
pub open spec fn same_but_rails(a: Config, b: Config) -> bool {
    &&& a.brave_search_api_key@ == b.brave_search_api_key@
    &&& a.brave_search_api_base_url@ == b.brave_search_api_base_url@
    &&& a.allow_testnet == b.allow_testnet
    &&& a.restricted_address_s3_bucket is Some <==> b.restricted_address_s3_bucket is Some
    &&& a.restricted_address_s3_bucket is Some ==> a.restricted_address_s3_bucket->0@
        == b.restricted_address_s3_bucket->0@
}

/// Whether two configs have the same x402 rail.
pub open spec fn same_x402(a: Config, b: Config) -> bool {
    &&& a.x402 is Some <==> b.x402 is Some
    &&& a.x402 is Some ==> a.x402->0.facilitator_url@ == b.x402->0.facilitator_url@
}

/// Whether two configs have the same MPP rail.
pub open spec fn same_mpp(a: Config, b: Config) -> bool {
    &&& a.mpp is Some <==> b.mpp is Some
    &&& a.mpp is Some ==> a.mpp->0.rpc_url@ == b.mpp->0.rpc_url@ && a.mpp->0.secret_key@
        == b.mpp->0.secret_key@
}

/// A rail that is turned off is off, and one that is pointed elsewhere is pointed there; the
/// rest of the config stays.
pub proof fn a_changed_config_keeps_the_rest(
    config: Config,
    url: String,
    without_x402: Config,
    without_mpp: Config,
    facilitated: Config,
    pointed: Config,
)
    requires
        config.mpp is Some,
        call_ensures(Config::without_x402, (config,), without_x402),
        call_ensures(Config::without_mpp, (config,), without_mpp),
        call_ensures(Config::with_facilitator_url, (config, url), facilitated),
        call_ensures(Config::with_mpp_rpc_url, (config, url), pointed),
    ensures
        without_x402.x402 is None && same_mpp(without_x402, config) && same_but_rails(
            without_x402,
            config,
        ),
        without_mpp.mpp is None && same_x402(without_mpp, config) && same_but_rails(
            without_mpp,
            config,
        ),
        facilitated.x402 is Some && facilitated.x402->0.facilitator_url@ == url@ && same_mpp(
            facilitated,
            config,
        ) && same_but_rails(facilitated, config),
        pointed.mpp is Some && pointed.mpp->0.rpc_url@ == url@ && pointed.mpp->0.secret_key@
            == config.mpp->0.secret_key@ && same_x402(pointed, config) && same_but_rails(
            pointed,
            config,
        ),
{
    lemma_same_config(without_x402, config);
    lemma_same_config(without_mpp, config);
    lemma_same_config(facilitated, config);
    lemma_same_config(pointed, config);
}

proof fn lemma_same_config(a: Config, b: Config)
    ensures
        a@.brave_search_api_key == b@.brave_search_api_key && a@.brave_search_api_base_url
            == b@.brave_search_api_base_url && a@.allow_testnet == b@.allow_testnet
            && a@.restricted_address_s3_bucket == b@.restricted_address_s3_bucket
            ==> same_but_rails(a, b),
        a@.x402 == b@.x402 ==> same_x402(a, b),
        a@.mpp == b@.mpp ==> same_mpp(a, b),
{
    if a@.mpp == b@.mpp {
        if let (Some(x), Some(y)) = (a.mpp, b.mpp) {
            assert(x@ == y@);
        }
    }
}

} // verus!
