//! What reading a workload description and rendering an address give, stated over
//! the document's entries and over the numbers themselves.
use vstd::prelude::*;
use crate::settings::service_url_of;
use crate::text::{ascii_lower, decimal, digit_char, trim_end};
use crate::workload::{
    RestartConfig, first_container_of, restart_config_of, service_name_of, start_spec_of,
    string_list, strings_in,
};
use crate::yaml::{YamlValue, yaml_get, yaml_seq, yaml_str, yaml_u64};

verus! {

// ---------------------------------------------------------------------------
// Service name
// ---------------------------------------------------------------------------

/// The service name is the string under `metadata.name`, character for character;
/// there is none when that entry is missing or is not a string.
pub proof fn law_service_name_is_metadata_name(root: YamlValue, meta: YamlValue, name: YamlValue)
    ensures
        yaml_get(root, "metadata"@) is None ==> service_name_of(root) is None,
        yaml_get(root, "metadata"@) == Some(meta) && yaml_get(meta, "name"@) is None
            ==> service_name_of(root) is None,
        yaml_get(root, "metadata"@) == Some(meta) && yaml_get(meta, "name"@) == Some(name)
            ==> service_name_of(root) == yaml_str(name),
{
}

// ---------------------------------------------------------------------------
// String lists
// ---------------------------------------------------------------------------

proof fn lemma_strings_in_append(a: Seq<YamlValue>, b: Seq<YamlValue>)
    ensures
        strings_in(a + b) == strings_in(a) + strings_in(b),
    decreases b.len(),
{
    if b.len() == 0 {
        assert(a + b =~= a);
        assert(strings_in(a) + strings_in(b) =~= strings_in(a));
    } else {
        lemma_strings_in_append(a, b.drop_last());
        assert((a + b).drop_last() =~= a + b.drop_last());
        assert((a + b).last() == b.last());
        match yaml_str(b.last()) {
            Some(s) => {
                assert(strings_in(a) + strings_in(b) =~= (strings_in(a) + strings_in(b.drop_last())).push(s));
            },
            None => {},
        }
    }
}

/// Adding an item at the end of a sequence adds its string at the end of the list
/// read from it, when the item is a string, and changes nothing otherwise.
pub proof fn law_string_list_push(before: YamlValue, after: YamlValue, item: YamlValue)
    requires
        before is Sequence,
        after is Sequence,
        after->Sequence_0@ == before->Sequence_0@.push(item),
    ensures
        string_list(Some(after)) == match yaml_str(item) {
            Some(s) => string_list(Some(before)).push(s),
            None => string_list(Some(before)),
        },
{
    let a = before->Sequence_0@;
    assert(after->Sequence_0@.drop_last() =~= a);
}

/// Putting a sequence after another reads as the two lists one after the other.
pub proof fn law_string_list_concat(first: YamlValue, second: YamlValue, both: YamlValue)
    requires
        first is Sequence,
        second is Sequence,
        both is Sequence,
        both->Sequence_0@ == first->Sequence_0@ + second->Sequence_0@,
    ensures
        string_list(Some(both)) == string_list(Some(first)) + string_list(Some(second)),
{
    lemma_strings_in_append(first->Sequence_0@, second->Sequence_0@);
}

proof fn lemma_all_strings(items: Seq<YamlValue>)
    requires
        forall|i: int| 0 <= i < items.len() ==> (#[trigger] yaml_str(items[i])) is Some,
    ensures
        strings_in(items).len() == items.len(),
        forall|i: int| 0 <= i < items.len() ==> Some(#[trigger] strings_in(items)[i]) == yaml_str(items[i]),
    decreases items.len(),
{
    if items.len() > 0 {
        let rest = items.drop_last();
        assert forall|i: int| 0 <= i < rest.len() implies (#[trigger] yaml_str(rest[i])) is Some by {
            assert(rest[i] == items[i]);
        }
        lemma_all_strings(rest);
        assert(yaml_str(items[items.len() - 1]) is Some);
        assert forall|i: int| 0 <= i < items.len() implies Some(#[trigger] strings_in(items)[i]) == yaml_str(items[i]) by {
            if i < items.len() - 1 {
                assert(rest[i] == items[i]);
                assert(strings_in(items)[i] == strings_in(rest)[i]);
            }
        }
    }
}

/// A sequence of strings reads as exactly its strings, in order and none left out.
pub proof fn law_string_list_of_strings(list: YamlValue)
    requires
        list is Sequence,
        forall|i: int| 0 <= i < list->Sequence_0@.len() ==> (#[trigger] yaml_str(list->Sequence_0@[i])) is Some,
    ensures
        string_list(Some(list)).len() == list->Sequence_0@.len(),
        forall|i: int| 0 <= i < list->Sequence_0@.len() ==> Some(#[trigger] string_list(Some(list))[i])
            == yaml_str(list->Sequence_0@[i]),
{
    lemma_all_strings(list->Sequence_0@);
}

// ---------------------------------------------------------------------------
// Restart options
// ---------------------------------------------------------------------------

/// The non-negative integer under `key`, if there is one.
pub open spec fn count_entry(spec: YamlValue, key: Seq<char>) -> Option<u64> {
    match yaml_get(spec, key) {
        Some(v) => yaml_u64(v),
        None => None,
    }
}

/// Each count is read from its own entry alone: its integer modulo 2^32, or 0 when the
/// entry is missing or is not a non-negative integer. Without a `spec` every option is 0.
pub proof fn law_restart_counts_from_own_entries(spec: YamlValue)
    ensures
        ({
            let c = restart_config_of(Some(spec));
            &&& match count_entry(spec, "maxRetries"@) {
                Some(n) => c.max_retries as int == n % 0x1_0000_0000,
                None => c.max_retries == 0,
            }
            &&& match count_entry(spec, "restartDelaySecs"@) {
                Some(n) => c.restart_delay_secs as int == n % 0x1_0000_0000,
                None => c.restart_delay_secs == 0,
            }
        }),
        restart_config_of(None) == (RestartConfig { policy: 0, max_retries: 0, restart_delay_secs: 0 }),
{
}

/// The policy is read from `restartPolicy` alone: `always` gives 2, `onfailure` or
/// `on_failure` gives 1 (ASCII case ignored), and anything else, or no string, gives 0.
pub proof fn law_restart_policy_from_own_entry(spec: YamlValue, entry: YamlValue, name: Seq<char>)
    ensures
        yaml_get(spec, "restartPolicy"@) is None ==> restart_config_of(Some(spec)).policy == 0,
        yaml_get(spec, "restartPolicy"@) == Some(entry) && yaml_str(entry) is None
            ==> restart_config_of(Some(spec)).policy == 0,
        yaml_get(spec, "restartPolicy"@) == Some(entry) && yaml_str(entry) == Some(name) ==> {
            &&& ascii_lower(name) == "always"@ ==> restart_config_of(Some(spec)).policy == 2
            &&& (ascii_lower(name) == "onfailure"@ || ascii_lower(name) == "on_failure"@)
                ==> restart_config_of(Some(spec)).policy == 1
            &&& (ascii_lower(name) != "always"@ && ascii_lower(name) != "onfailure"@
                && ascii_lower(name) != "on_failure"@) ==> restart_config_of(Some(spec)).policy == 0
        },
{
    reveal_strlit("always");
    reveal_strlit("onfailure");
    reveal_strlit("on_failure");
    assert("always"@ != "onfailure"@) by { assert("always"@.len() != "onfailure"@.len()); }
    assert("always"@ != "on_failure"@) by { assert("always"@.len() != "on_failure"@.len()); }
}

// ---------------------------------------------------------------------------
// Start specification
// ---------------------------------------------------------------------------

/// Reading a start specification fails exactly when there is no service name, no first
/// container, or no word in the first container's command; a missing `args` entry is no
/// error.
pub proof fn law_start_spec_fails_exactly(root: YamlValue)
    ensures
        start_spec_of(root) is Err <==> (service_name_of(root) is None || first_container_of(root)
            is None || string_list(yaml_get(first_container_of(root)->Some_0, "command"@)).len() == 0),
{
}

/// The first container is the first item of the sequence under `spec.containers`.
pub proof fn law_first_container_is_first_item(root: YamlValue, spec: YamlValue, containers: YamlValue)
    ensures
        yaml_get(root, "spec"@) == Some(spec) && yaml_get(spec, "containers"@) == Some(containers)
            && yaml_seq(containers) is Some && yaml_seq(containers)->Some_0.len() > 0
            ==> first_container_of(root) == Some(yaml_seq(containers)->Some_0[0]),
        yaml_get(root, "spec"@) == Some(spec) && yaml_get(spec, "containers"@) == Some(containers)
            && (yaml_seq(containers) is None || yaml_seq(containers)->Some_0.len() == 0)
            ==> first_container_of(root) is None,
        yaml_get(root, "spec"@) == Some(spec) && yaml_get(spec, "containers"@) is None
            ==> first_container_of(root) is None,
        yaml_get(root, "spec"@) is None ==> first_container_of(root) is None,
{
}

/// With a name, a first container and a command of strings, the start specification
/// is read: the service is the name; the binary is the first word of the command; the
/// arguments are the rest of the command followed by the `args` list (none when there is
/// no `args` entry); the restart options come from `spec`.
pub proof fn law_start_spec_reads_entries(
    root: YamlValue,
    container: YamlValue,
    command: YamlValue,
    rest: YamlValue,
    first: Seq<char>,
)
    requires
        service_name_of(root) is Some,
        first_container_of(root) == Some(container),
        yaml_get(container, "command"@) == Some(command),
        command is Sequence,
        command->Sequence_0@.len() > 0,
        yaml_str(command->Sequence_0@[0]) == Some(first),
        rest is Sequence,
        rest->Sequence_0@ == command->Sequence_0@.drop_first(),
    ensures
        start_spec_of(root) is Ok,
        start_spec_of(root)->Ok_0.service_name == service_name_of(root)->Some_0,
        start_spec_of(root)->Ok_0.binary_path == first,
        start_spec_of(root)->Ok_0.args == string_list(Some(rest)) + string_list(
            yaml_get(container, "args"@),
        ),
        yaml_get(container, "args"@) is None ==> start_spec_of(root)->Ok_0.args == string_list(Some(rest)),
        start_spec_of(root)->Ok_0.restart_config == restart_config_of(yaml_get(root, "spec"@)),
{
    let items = command->Sequence_0@;
    assert(items =~= seq![items[0]] + rest->Sequence_0@);
    lemma_strings_in_append(seq![items[0]], rest->Sequence_0@);
    assert(seq![items[0]].drop_last() =~= Seq::<YamlValue>::empty());
    let one = seq![items[0]];
    assert(one.drop_last() =~= Seq::<YamlValue>::empty());
    assert(one.last() == items[0]);
    assert(strings_in(Seq::<YamlValue>::empty()) =~= Seq::<Seq<char>>::empty());
    assert(strings_in(one) =~= seq![first]);
    let words = string_list(Some(command));
    assert(words =~= seq![first] + string_list(Some(rest)));
    assert(words[0] == first);
    assert(words.drop_first() =~= string_list(Some(rest)));
    assert(string_list(None) =~= Seq::<Seq<char>>::empty());
}

// ---------------------------------------------------------------------------
// Port numerals
// ---------------------------------------------------------------------------

/// Whether a character is an ASCII decimal digit.
pub open spec fn is_ascii_digit(c: char) -> bool {
    '0' <= c && c <= '9'
}

/// The number that a string of ASCII decimal digits stands for.
pub open spec fn digits_value(s: Seq<char>) -> nat
    decreases s.len(),
{
    if s.len() == 0 {
        0
    } else {
        digits_value(s.drop_last()) * 10 + ((s.last() as u32) - 48) as nat
    }
}

proof fn lemma_digit_char(d: nat)
    requires
        d < 10,
    ensures
        (digit_char(d) as u32) == 48 + d,
{
    let b: u8 = (48 + d) as u8;
    assert(b == 48 + d);
    assert((b as char) as u32 == b as u32);
}

/// A rendered number is its standard decimal numeral: ASCII digits only, no leading
/// zero unless the number is 0, and read in base 10 they give the number back.
pub proof fn law_decimal_is_numeral(n: nat)
    ensures
        decimal(n).len() > 0,
        forall|i: int| 0 <= i < decimal(n).len() ==> is_ascii_digit(#[trigger] decimal(n)[i]),
        digits_value(decimal(n)) == n,
        n > 0 ==> decimal(n)[0] != '0',
    decreases n,
{
    lemma_digit_char(n % 10);
    if n < 10 {
        assert(decimal(n) == seq![digit_char(n)]);
        assert(decimal(n).drop_last() =~= Seq::<char>::empty());
        assert(digits_value(Seq::<char>::empty()) == 0);
        assert(decimal(n).last() == digit_char(n));
        assert(digits_value(decimal(n)) == digits_value(decimal(n).drop_last()) * 10 + ((decimal(n).last() as u32) - 48) as nat);
    } else {
        law_decimal_is_numeral(n / 10);
        let prefix = decimal(n / 10);
        assert(decimal(n) == prefix.push(digit_char(n % 10)));
        assert(decimal(n).drop_last() =~= prefix);
        assert forall|i: int| 0 <= i < decimal(n).len() implies is_ascii_digit(#[trigger] decimal(n)[i]) by {
            if i < prefix.len() {
                assert(decimal(n)[i] == prefix[i]);
            }
        }
        assert(decimal(n)[0] == prefix[0]);
        assert(decimal(n).last() == digit_char(n % 10));
        assert(digits_value(decimal(n)) == digits_value(prefix) * 10 + ((decimal(n).last() as u32) - 48) as nat);
        assert(n == (n / 10) * 10 + n % 10);
    }
}

/// A service address is the base without trailing slashes, a colon, and the port's
/// standard decimal numeral.
pub proof fn law_service_url_ends_with_port_numeral(base: Seq<char>, port: u16)
    ensures
        ({
            let url = service_url_of(base, port);
            let head = trim_end(base, '/') + ":"@;
            let tail = url.subrange(head.len() as int, url.len() as int);
            &&& url.len() > head.len()
            &&& url.subrange(0, head.len() as int) == head
            &&& forall|i: int| 0 <= i < tail.len() ==> is_ascii_digit(#[trigger] tail[i])
            &&& digits_value(tail) == port
            &&& port > 0 ==> tail[0] != '0'
        }),
{
    law_decimal_is_numeral(port as nat);
    let url = service_url_of(base, port);
    let head = trim_end(base, '/') + ":"@;
    assert(url.subrange(0, head.len() as int) =~= head);
    assert(url.subrange(head.len() as int, url.len() as int) =~= decimal(port as nat));
}

} // verus!
