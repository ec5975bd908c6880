//! Properties that hold across the library's functions.
use vstd::prelude::*;
use crate::binary::{RestartPolicy, proto_value};
use crate::settings::{HealthStep, CliError, health_next, service_url_of};
use crate::text::{ascii_lower, ascii_lower_char, decimal, digit_char, is_ws, trim_end, words};
use crate::workload::{policy_code, start_spec_of, string_list, first_container_of, service_name_of};
use crate::yaml::{YamlValue, yaml_get, yaml_document};

verus! {

proof fn lemma_decimal_len(n: nat)
    ensures
        decimal(n).len() >= 1,
        n >= 10 ==> decimal(n).len() >= 2,
    decreases n,
{
    if n >= 10 {
        lemma_decimal_len(n / 10);
    }
}

proof fn lemma_digit_char_injective(a: nat, b: nat)
    requires
        a < 10,
        b < 10,
        digit_char(a) == digit_char(b),
    ensures
        a == b,
{
    let x: u8 = (48 + a) as u8;
    let y: u8 = (48 + b) as u8;
    assert((x as char) as u32 == x as u32);
    assert((y as char) as u32 == y as u32);
}

/// Different numbers have different decimal renderings.
pub proof fn law_decimal_injective(n: nat, m: nat)
    requires
        decimal(n) == decimal(m),
    ensures
        n == m,
    decreases n,
{
    lemma_decimal_len(n);
    lemma_decimal_len(m);
    let dn = decimal(n);
    let dm = decimal(m);
    assert(dn.last() == digit_char(n % 10));
    assert(dm.last() == digit_char(m % 10));
    lemma_digit_char_injective(n % 10, m % 10);
    if n < 10 || m < 10 {
        assert(n < 10 && m < 10);
    } else {
        assert(dn.drop_last() == decimal(n / 10));
        assert(dm.drop_last() == decimal(m / 10));
        law_decimal_injective(n / 10, m / 10);
    }
}

/// Two services on different ports of the same base URL get different addresses.
pub proof fn law_distinct_ports_distinct_urls(base: Seq<char>, p1: u16, p2: u16)
    requires
        p1 != p2,
    ensures
        service_url_of(base, p1) != service_url_of(base, p2),
{
    let prefix = trim_end(base, '/') + ":"@;
    if service_url_of(base, p1) == service_url_of(base, p2) {
        let a = prefix + decimal(p1 as nat);
        let b = prefix + decimal(p2 as nat);
        assert(a.subrange(prefix.len() as int, a.len() as int) =~= decimal(p1 as nat));
        assert(b.subrange(prefix.len() as int, b.len() as int) =~= decimal(p2 as nat));
        law_decimal_injective(p1 as nat, p2 as nat);
    }
}

/// Trailing slashes of the base URL do not change a service address.
pub proof fn law_trailing_slash_ignored(base: Seq<char>, port: u16)
    ensures
        service_url_of(base.push('/'), port) == service_url_of(base, port),
{
    assert(base.push('/').drop_last() =~= base);
}

/// Every word of a whitespace split is non-empty and holds no whitespace.
pub proof fn law_words_are_clean(s: Seq<char>)
    ensures
        forall|i: int| 0 <= i < words(s).len() ==> #[trigger] words(s)[i].len() > 0,
        forall|i: int, j: int|
            0 <= i < words(s).len() && 0 <= j < words(s)[i].len() ==> !is_ws(#[trigger] words(s)[i][j]),
    decreases s.len(),
{
    if s.len() > 0 {
        law_words_are_clean(s.drop_last());
        let w = words(s.drop_last());
        let c = s.last();
        if !is_ws(c) {
            if s.len() >= 2 && !is_ws(s[s.len() - 2]) && w.len() > 0 {
                let last = w.last().push(c);
                assert(words(s) == w.drop_last().push(last));
                assert forall|i: int, j: int|
                    0 <= i < words(s).len() && 0 <= j < words(s)[i].len() implies !is_ws(
                        #[trigger] words(s)[i][j],
                    ) by {
                    if i < w.len() - 1 {
                        assert(words(s)[i] == w[i]);
                    } else {
                        assert(words(s)[i] == last);
                        if j < w.last().len() {
                            assert(last[j] == w[w.len() - 1][j]);
                        }
                    }
                }
            } else {
                assert(words(s) == w.push(seq![c]));
                assert forall|i: int, j: int|
                    0 <= i < words(s).len() && 0 <= j < words(s)[i].len() implies !is_ws(
                        #[trigger] words(s)[i][j],
                    ) by {
                    if i < w.len() {
                        assert(words(s)[i] == w[i]);
                    }
                }
            }
        }
    }
}

/// The name a restart policy has in artifact descriptions.
pub open spec fn policy_name(p: RestartPolicy) -> Seq<char> {
    match p {
        RestartPolicy::Never => "Never"@,
        RestartPolicy::OnFailure => "OnFailure"@,
        RestartPolicy::Always => "Always"@,
    }
}

/// A pod's `restartPolicy` written with a policy's name stands for the same protocol
/// number as that policy of a binary artifact.
pub proof fn law_policy_names_match_proto(p: RestartPolicy)
    ensures
        policy_code(policy_name(p)) == proto_value(p),
{
    reveal_strlit("Never");
    reveal_strlit("OnFailure");
    reveal_strlit("Always");
    reveal_strlit("always");
    reveal_strlit("onfailure");
    reveal_strlit("on_failure");
    match p {
        RestartPolicy::Never => {
            assert(ascii_lower("Never"@).len() == 5);
            assert(ascii_lower("Never"@) != "always"@);
            assert(ascii_lower("Never"@) != "on_failure"@);
            assert(ascii_lower("Never"@)[0] == ascii_lower_char('N'));
            assert(ascii_lower("Never"@) != "onfailure"@);
        },
        RestartPolicy::OnFailure => {
            assert(ascii_lower("OnFailure"@).len() == 9);
            assert(ascii_lower("OnFailure"@) != "always"@);
            assert(ascii_lower("OnFailure"@) =~= "onfailure"@);
        },
        RestartPolicy::Always => {
            assert(ascii_lower("Always"@) =~= "always"@);
        },
    }
}

proof fn lemma_lower_char_idempotent(c: char)
    ensures
        ascii_lower_char(ascii_lower_char(c)) == ascii_lower_char(c),
{
    if 'A' <= c && c <= 'Z' {
        let u: u32 = c as u32;
        assert(0x41 <= u <= 0x5a);
        let b: u8 = (u + 32) as u8;
        assert(b == u + 32);
        assert((b as char) as u32 == b as u32);
    }
}

/// The policy number of a name does not depend on the ASCII case of the name.
pub proof fn law_policy_case_insensitive(name: Seq<char>)
    ensures
        policy_code(ascii_lower(name)) == policy_code(name),
{
    assert forall|i: int| 0 <= i < name.len() implies ascii_lower(ascii_lower(name))[i] == ascii_lower(name)[i] by {
        lemma_lower_char_idempotent(name[i]);
    }
    assert(ascii_lower(ascii_lower(name)) =~= ascii_lower(name));
}

/// A started pod runs the whole command line it describes: the binary followed by its
/// arguments is the container's `command` followed by its `args`.
pub proof fn law_command_line_preserved(root: YamlValue)
    requires
        start_spec_of(root) is Ok,
    ensures
        ({
            let s = start_spec_of(root)->Ok_0;
            let c = first_container_of(root)->Some_0;
            seq![s.binary_path] + s.args == string_list(yaml_get(c, "command"@)) + string_list(
                yaml_get(c, "args"@),
            )
        }),
{
    let s = start_spec_of(root)->Ok_0;
    let c = first_container_of(root)->Some_0;
    let command = string_list(yaml_get(c, "command"@));
    assert(seq![command[0]] + command.drop_first() =~= command);
    assert(seq![s.binary_path] + s.args =~= (seq![command[0]] + command.drop_first()) + string_list(
        yaml_get(c, "args"@),
    ));
}

/// Reading a pod description for its service name agrees with reading it for its start
/// specification: a YAML text that can be started names the service it starts.
pub proof fn law_service_name_agrees_with_start_spec(text: Seq<char>)
    requires
        yaml_document(text) is Ok,
        start_spec_of(yaml_document(text)->Ok_0) is Ok,
    ensures
        service_name_of(yaml_document(text)->Ok_0) == Some(
            start_spec_of(yaml_document(text)->Ok_0)->Ok_0.service_name,
        ),
{
}

/// A health check passes exactly when both probes find their service healthy.
pub proof fn law_health_passes_iff_both_healthy(settings: Result<bool, CliError>, api: Result<bool, CliError>)
    ensures
        health_next(health_next(HealthStep::CheckSettings, settings), api) is Passed <==> (settings
            == Ok::<bool, CliError>(true) && api == Ok::<bool, CliError>(true)),
{
}

/// When the settings service is not healthy the check ends there: the API server's
/// answer changes nothing.
pub proof fn law_health_settings_failure_final(settings: Result<bool, CliError>, api: Result<bool, CliError>)
    requires
        settings != Ok::<bool, CliError>(true),
    ensures
        health_next(health_next(HealthStep::CheckSettings, settings), api) == health_next(
            HealthStep::CheckSettings,
            settings,
        ),
{
}

} // verus!
