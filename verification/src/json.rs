use vstd::prelude::*;
use vstd::string::StringExecFns;

use crate::characteristic::{has_perm, Characteristic, Format, Perm, Unit, Value};
use crate::error::HapError;
use crate::service::Service;
use crate::text::{
    decimal, digit_char, fixed_decimal, push_decimal, push_fixed_decimal, push_signed_decimal,
    signed_decimal,
};

verus! {

/// The error of the JSON encoder.
#[verifier::external_type_specification]
#[verifier::external_body]
pub struct ExEncoderError(serde_json::Error);

/// The character of a hexadecimal digit, in lower case.
pub open spec fn hex_digit(d: int) -> char {
    if d < 10 {
        digit_char(d)
    } else if d == 10 {
        'a'
    } else if d == 11 {
        'b'
    } else if d == 12 {
        'c'
    } else if d == 13 {
        'd'
    } else if d == 14 {
        'e'
    } else {
        'f'
    }
}

/// A character as it stands inside a JSON string: the quotation mark and the
/// backslash behind a backslash, the control characters below the space by their
/// short escape or, where they have none, by `\u00` and two hexadecimal digits,
/// and every other character as it is.
pub open spec fn escaped_char(c: char) -> Seq<char> {
    if c == '"' {
        seq!['\\', '"']
    } else if c == '\\' {
        seq!['\\', '\\']
    } else if c == '\u{8}' {
        seq!['\\', 'b']
    } else if c == '\t' {
        seq!['\\', 't']
    } else if c == '\n' {
        seq!['\\', 'n']
    } else if c == '\u{c}' {
        seq!['\\', 'f']
    } else if c == '\r' {
        seq!['\\', 'r']
    } else if (c as u32) < 0x20 {
        seq!['\\', 'u', '0', '0', hex_digit((c as u32 / 16) as int), hex_digit((c as u32 % 16) as int)]
    } else {
        seq![c]
    }
}

/// A text as it stands inside a JSON string.
pub open spec fn escaped(s: Seq<char>) -> Seq<char>
    decreases s.len(),
{
    if s.len() == 0 {
        Seq::empty()
    } else {
        escaped(s.drop_last()) + escaped_char(s.last())
    }
}

/// A text as a JSON string: escaped, between quotation marks.
pub open spec fn json_string(s: Seq<char>) -> Seq<char> {
    seq!['"'] + escaped(s) + seq!['"']
}

/// Encodes a text as a JSON string with `serde_json::to_string`.
///
/// Not proved: that the encoder succeeds on every text, since it writes into a
/// vector and a text has nothing that it refuses, and that it returns the text
/// between quotation marks with the escapes of `escaped_char`.
#[verifier::external_body]
fn encode_string(s: &str) -> (encoded: Result<String, serde_json::Error>)
    ensures
        encoded is Ok,
        encoded matches Ok(text) ==> text@ == json_string(s@),
{
    serde_json::to_string(s)
}

/// Appends what the JSON encoder returned, where it returned a text.
pub fn push_encoded(out: &mut String, encoded: Result<String, serde_json::Error>) -> (pushed: Result<
    (),
    HapError,
>)
    ensures
        match encoded {
            Ok(text) => pushed is Ok && final(out)@ == old(out)@ + text@,
            Err(_) => pushed == Err::<(), HapError>(HapError::Serialization) && final(out)@ == old(out)@,
        },
{
    match encoded {
        Ok(text) => {
            out.append(text.as_str());
            Ok(())
        },
        Err(_) => Err(HapError::Serialization),
    }
}

/// Appends a text as a JSON string.
pub fn push_json_string(out: &mut String, s: &str) -> (pushed: Result<(), HapError>)
    ensures
        pushed is Ok,
        final(out)@ == old(out)@ + json_string(s@),
{
    push_encoded(out, encode_string(s))
}

/// A permission in JSON.
pub open spec fn perm_json(perm: Perm) -> Seq<char> {
    match perm {
        Perm::PairedRead => "\"pr\""@,
        Perm::PairedWrite => "\"pw\""@,
        Perm::Events => "\"ev\""@,
        Perm::AdditionalAuthorization => "\"aa\""@,
        Perm::TimedWrite => "\"tw\""@,
        Perm::Hidden => "\"hd\""@,
    }
}

/// A format in JSON.
pub open spec fn format_json(format: Format) -> Seq<char> {
    match format {
        Format::Bool => "\"bool\""@,
        Format::UInt8 => "\"uint8\""@,
        Format::UInt16 => "\"uint16\""@,
        Format::UInt32 => "\"uint32\""@,
        Format::UInt64 => "\"uint64\""@,
        Format::Int => "\"int\""@,
        Format::Float => "\"float\""@,
        Format::String => "\"string\""@,
        Format::Tlv8 => "\"tlv8\""@,
        Format::Data => "\"data\""@,
    }
}

/// A unit in JSON.
pub open spec fn unit_json(unit: Unit) -> Seq<char> {
    match unit {
        Unit::Celsius => "\"celsius\""@,
        Unit::Percentage => "\"percentage\""@,
        Unit::ArcDegrees => "\"arcdegrees\""@,
        Unit::Lux => "\"lux\""@,
        Unit::Seconds => "\"seconds\""@,
    }
}

/// A boolean in JSON.
pub open spec fn bool_json(b: bool) -> Seq<char> {
    if b {
        "true"@
    } else {
        "false"@
    }
}

/// A value in JSON.
pub open spec fn value_json(value: Value) -> Seq<char> {
    match value {
        Value::Bool(b) => bool_json(b),
        Value::UInt(n) => decimal(n as nat),
        Value::Int(n) => signed_decimal(n as int),
        Value::Float(m) => fixed_decimal(m as int),
        Value::Str(s) => json_string(s@),
    }
}

/// Returns a permission in JSON.
pub fn perm_text(perm: Perm) -> (text: &'static str)
    ensures
        text@ == perm_json(perm),
{
    match perm {
        Perm::PairedRead => "\"pr\"",
        Perm::PairedWrite => "\"pw\"",
        Perm::Events => "\"ev\"",
        Perm::AdditionalAuthorization => "\"aa\"",
        Perm::TimedWrite => "\"tw\"",
        Perm::Hidden => "\"hd\"",
    }
}

/// Returns a format in JSON.
pub fn format_text(format: Format) -> (text: &'static str)
    ensures
        text@ == format_json(format),
{
    match format {
        Format::Bool => "\"bool\"",
        Format::UInt8 => "\"uint8\"",
        Format::UInt16 => "\"uint16\"",
        Format::UInt32 => "\"uint32\"",
        Format::UInt64 => "\"uint64\"",
        Format::Int => "\"int\"",
        Format::Float => "\"float\"",
        Format::String => "\"string\"",
        Format::Tlv8 => "\"tlv8\"",
        Format::Data => "\"data\"",
    }
}

/// Returns a unit in JSON.
pub fn unit_text(unit: Unit) -> (text: &'static str)
    ensures
        text@ == unit_json(unit),
{
    match unit {
        Unit::Celsius => "\"celsius\"",
        Unit::Percentage => "\"percentage\"",
        Unit::ArcDegrees => "\"arcdegrees\"",
        Unit::Lux => "\"lux\"",
        Unit::Seconds => "\"seconds\"",
    }
}

/// Returns a boolean in JSON.
pub fn bool_text(b: bool) -> (text: &'static str)
    ensures
        text@ == bool_json(b),
{
    if b {
        "true"
    } else {
        "false"
    }
}

/// Appends a value in JSON.
pub fn push_value(out: &mut String, value: &Value) -> (pushed: Result<(), HapError>)
    ensures
        pushed is Ok,
        final(out)@ == old(out)@ + value_json(*value),
{
    match value {
        Value::Bool(b) => {
            out.append(bool_text(*b));
            Ok(())
        },
        Value::UInt(n) => {
            push_decimal(out, *n);
            Ok(())
        },
        Value::Int(n) => {
            push_signed_decimal(out, *n);
            Ok(())
        },
        Value::Float(m) => {
            push_fixed_decimal(out, *m);
            Ok(())
        },
        Value::Str(s) => push_json_string(out, s.as_str()),
    }
}

/// The first `n` permissions in JSON, with commas between them.
pub open spec fn perms_json(perms: Seq<Perm>, n: int) -> Seq<char>
    decreases n,
{
    if n <= 0 {
        Seq::empty()
    } else if n == 1 {
        perm_json(perms[0])
    } else {
        perms_json(perms, n - 1) + ","@ + perm_json(perms[n - 1])
    }
}

/// A member of a JSON object that is there where the value is: a comma, the key
/// with its colon, and the value.
pub open spec fn optional_member(key: Seq<char>, value: Option<Seq<char>>) -> Seq<char> {
    match value {
        Some(v) => key + v,
        None => Seq::empty(),
    }
}

/// The JSON of an optional bound.
pub open spec fn bound_json(bound: Option<Value>) -> Option<Seq<char>> {
    match bound {
        Some(b) => Some(value_json(b)),
        None => None,
    }
}

/// A characteristic in JSON: an object with the members `iid`, `type`, `perms`
/// and `format`, then `value` where the characteristic may be read, then those
/// of `ev`, `unit`, `maxValue`, `minValue`, `minStep` and `maxLen` that the
/// characteristic has, in this order.
pub open spec fn characteristic_json(c: Characteristic) -> Seq<char> {
    characteristic_head(c) + optional_member(
        ",\"value\":"@,
        if c.perms@.contains(Perm::PairedRead) {
            Some(value_json(c.value))
        } else {
            None
        },
    ) + optional_member(
        ",\"ev\":"@,
        match c.event_notifications {
            Some(ev) => Some(bool_json(ev)),
            None => None,
        },
    ) + optional_member(
        ",\"unit\":"@,
        match c.unit {
            Some(unit) => Some(unit_json(unit)),
            None => None,
        },
    ) + optional_member(",\"maxValue\":"@, bound_json(c.max_value)) + optional_member(
        ",\"minValue\":"@,
        bound_json(c.min_value),
    ) + optional_member(",\"minStep\":"@, bound_json(c.step_value)) + optional_member(
        ",\"maxLen\":"@,
        match c.max_len {
            Some(l) => Some(decimal(l as nat)),
            None => None,
        },
    ) + "}"@
}

/// The first `n` characteristics in JSON, with commas between them.
pub open spec fn characteristics_json(characteristics: Seq<Characteristic>, n: int) -> Seq<char>
    decreases n,
{
    if n <= 0 {
        Seq::empty()
    } else if n == 1 {
        characteristic_json(characteristics[0])
    } else {
        characteristics_json(characteristics, n - 1) + ","@ + characteristic_json(characteristics[n - 1])
    }
}

/// A service in JSON: an object with the members `iid`, `type` and
/// `characteristics`.
pub open spec fn service_json(s: Service) -> Seq<char> {
    "{\"iid\":"@ + decimal(s.id as nat) + ",\"type\":"@ + json_string(s.hap_type@)
        + ",\"characteristics\":["@ + characteristics_json(
        s.characteristics@,
        s.characteristics@.len() as int,
    ) + "]}"@
}

/// The first `n` services in JSON, with commas between them.
pub open spec fn services_json(services: Seq<Service>, n: int) -> Seq<char>
    decreases n,
{
    if n <= 0 {
        Seq::empty()
    } else if n == 1 {
        service_json(services[0])
    } else {
        services_json(services, n - 1) + ","@ + service_json(services[n - 1])
    }
}

/// An accessory in JSON: an object with the members `aid` and `services`.
pub open spec fn accessory_json(aid: u64, services: Seq<Service>) -> Seq<char> {
    "{\"aid\":"@ + decimal(aid as nat) + ",\"services\":["@ + services_json(services, services.len() as int)
        + "]}"@
}

/// Appending in two steps is appending the whole.
pub proof fn lemma_appended(start: Seq<char>, done: Seq<char>, part: Seq<char>)
    ensures
        (start + done) + part == start + (done + part),
{
    assert((start + done) + part =~= start + (done + part));
}

/// Appending nothing changes nothing.
pub proof fn lemma_nothing_appended(start: Seq<char>)
    ensures
        start + Seq::<char>::empty() == start,
        Seq::<char>::empty() + start == start,
{
    assert(start + Seq::<char>::empty() =~= start);
    assert(Seq::<char>::empty() + start =~= start);
}

/// Appends an optional bound as a member of a JSON object.
fn push_bound(out: &mut String, key: &str, bound: &Option<Value>) -> (pushed: Result<(), HapError>)
    ensures
        pushed is Ok,
        final(out)@ == old(out)@ + optional_member(key@, bound_json(*bound)),
{
    match bound {
        Some(b) => {
            out.append(key);
            let pushed = push_value(out, b);
            proof {
                lemma_appended(old(out)@, key@, value_json(*b));
            }
            pushed
        },
        None => {
            proof {
                lemma_nothing_appended(old(out)@);
            }
            Ok(())
        },
    }
}

/// Appends an optional word as a member of a JSON object.
fn push_word(out: &mut String, key: &str, word: Option<&'static str>)
    ensures
        final(out)@ == old(out)@ + optional_member(
            key@,
            match word {
                Some(w) => Some(w@),
                None => None,
            },
        ),
{
    match word {
        Some(w) => {
            out.append(key);
            out.append(w);
            proof {
                lemma_appended(old(out)@, key@, w@);
            }
        },
        None => {
            proof {
                lemma_nothing_appended(old(out)@);
            }
        },
    }
}

/// Appends permissions in JSON, with commas between them.
fn push_perms(out: &mut String, perms: &Vec<Perm>)
    ensures
        final(out)@ == old(out)@ + perms_json(perms@, perms@.len() as int),
{
    let mut i: usize = 0;
    proof {
        lemma_nothing_appended(old(out)@);
    }
    while i < perms.len()
        invariant
            i <= perms.len(),
            out@ == old(out)@ + perms_json(perms@, i as int),
        decreases perms.len() - i,
    {
        let ghost before = perms_json(perms@, i as int);
        if i > 0 {
            out.append(",");
            proof {
                lemma_appended(old(out)@, before, ","@);
            }
        }
        out.append(perm_text(perms[i]));
        proof {
            if i > 0 {
                lemma_appended(old(out)@, before + ","@, perm_json(perms@[i as int]));
            } else {
                lemma_nothing_appended(perm_json(perms@[0]));
            }
        }
        i += 1;
    }
}

/// The members that every characteristic has in JSON, up to the format.
pub open spec fn characteristic_head(c: Characteristic) -> Seq<char> {
    "{\"iid\":"@ + decimal(c.id as nat) + ",\"type\":"@ + json_string(c.hap_type@) + ",\"perms\":["@
        + perms_json(c.perms@, c.perms@.len() as int) + "],\"format\":"@ + format_json(c.format)
}

/// Appends the members that every characteristic has in JSON.
fn push_characteristic_head(out: &mut String, c: &Characteristic) -> (pushed: Result<(), HapError>)
    ensures
        pushed is Ok,
        final(out)@ == old(out)@ + characteristic_head(*c),
{
    let ghost start = out@;
    out.append("{\"iid\":");
    let ghost d1 = "{\"iid\":"@;
    push_decimal(out, c.id);
    let ghost d2 = d1 + decimal(c.id as nat);
    proof {
        lemma_appended(start, d1, decimal(c.id as nat));
    }
    out.append(",\"type\":");
    let ghost d3 = d2 + ",\"type\":"@;
    proof {
        lemma_appended(start, d2, ",\"type\":"@);
    }
    push_json_string(out, c.hap_type.as_str())?;
    let ghost d4 = d3 + json_string(c.hap_type@);
    proof {
        lemma_appended(start, d3, json_string(c.hap_type@));
    }
    out.append(",\"perms\":[");
    let ghost d5 = d4 + ",\"perms\":["@;
    proof {
        lemma_appended(start, d4, ",\"perms\":["@);
    }
    push_perms(out, &c.perms);
    let ghost d6 = d5 + perms_json(c.perms@, c.perms@.len() as int);
    proof {
        lemma_appended(start, d5, perms_json(c.perms@, c.perms@.len() as int));
    }
    out.append("],\"format\":");
    let ghost d7 = d6 + "],\"format\":"@;
    proof {
        lemma_appended(start, d6, "],\"format\":"@);
    }
    out.append(format_text(c.format));
    proof {
        lemma_appended(start, d7, format_json(c.format));
    }
    Ok(())
}

/// Appends a characteristic in JSON.
pub fn push_characteristic(out: &mut String, c: &Characteristic) -> (pushed: Result<(), HapError>)
    ensures
        pushed is Ok,
        final(out)@ == old(out)@ + characteristic_json(*c),
{
    let ghost start = out@;
    push_characteristic_head(out, c)?;
    let ghost d1 = characteristic_head(*c);
    let ghost value_part = optional_member(
        ",\"value\":"@,
        if c.perms@.contains(Perm::PairedRead) {
            Some(value_json(c.value))
        } else {
            None
        },
    );
    if has_perm(&c.perms, Perm::PairedRead) {
        out.append(",\"value\":");
        push_value(out, &c.value)?;
        proof {
            lemma_appended(start + d1, ",\"value\":"@, value_json(c.value));
        }
    } else {
        proof {
            lemma_nothing_appended(start + d1);
        }
    }
    let ghost d2 = d1 + value_part;
    proof {
        lemma_appended(start, d1, value_part);
    }
    let ghost ev_part = optional_member(
        ",\"ev\":"@,
        match c.event_notifications {
            Some(ev) => Some(bool_json(ev)),
            None => None,
        },
    );
    push_word(
        out,
        ",\"ev\":",
        match c.event_notifications {
            Some(ev) => Some(bool_text(ev)),
            None => None,
        },
    );
    let ghost d3 = d2 + ev_part;
    proof {
        lemma_appended(start, d2, ev_part);
    }
    let ghost unit_part = optional_member(
        ",\"unit\":"@,
        match c.unit {
            Some(unit) => Some(unit_json(unit)),
            None => None,
        },
    );
    push_word(
        out,
        ",\"unit\":",
        match c.unit {
            Some(unit) => Some(unit_text(unit)),
            None => None,
        },
    );
    let ghost d4 = d3 + unit_part;
    proof {
        lemma_appended(start, d3, unit_part);
    }
    push_bound(out, ",\"maxValue\":", &c.max_value)?;
    let ghost d5 = d4 + optional_member(",\"maxValue\":"@, bound_json(c.max_value));
    proof {
        lemma_appended(start, d4, optional_member(",\"maxValue\":"@, bound_json(c.max_value)));
    }
    push_bound(out, ",\"minValue\":", &c.min_value)?;
    let ghost d6 = d5 + optional_member(",\"minValue\":"@, bound_json(c.min_value));
    proof {
        lemma_appended(start, d5, optional_member(",\"minValue\":"@, bound_json(c.min_value)));
    }
    push_bound(out, ",\"minStep\":", &c.step_value)?;
    let ghost d7 = d6 + optional_member(",\"minStep\":"@, bound_json(c.step_value));
    proof {
        lemma_appended(start, d6, optional_member(",\"minStep\":"@, bound_json(c.step_value)));
    }
    let ghost len_part = optional_member(
        ",\"maxLen\":"@,
        match c.max_len {
            Some(l) => Some(decimal(l as nat)),
            None => None,
        },
    );
    let ghost before_len = out@;
    if let Some(l) = c.max_len {
        out.append(",\"maxLen\":");
        push_decimal(out, l as u64);
        proof {
            lemma_appended(before_len, ",\"maxLen\":"@, decimal(l as nat));
        }
    } else {
        proof {
            lemma_nothing_appended(before_len);
        }
    }
    let ghost d8 = d7 + len_part;
    proof {
        lemma_appended(start, d7, len_part);
    }
    out.append("}");
    proof {
        lemma_appended(start, d8, "}"@);
    }
    Ok(())
}

/// Appends characteristics in JSON, with commas between them.
fn push_characteristics(out: &mut String, characteristics: &Vec<Characteristic>) -> (pushed: Result<
    (),
    HapError,
>)
    ensures
        pushed is Ok,
        final(out)@ == old(out)@ + characteristics_json(
            characteristics@,
            characteristics@.len() as int,
        ),
{
    let mut i: usize = 0;
    proof {
        lemma_nothing_appended(old(out)@);
    }
    while i < characteristics.len()
        invariant
            i <= characteristics.len(),
            out@ == old(out)@ + characteristics_json(characteristics@, i as int),
        decreases characteristics.len() - i,
    {
        let ghost before = characteristics_json(characteristics@, i as int);
        let ghost item = characteristic_json(characteristics@[i as int]);
        if i > 0 {
            out.append(",");
            proof {
                lemma_appended(old(out)@, before, ","@);
            }
        }
        push_characteristic(out, &characteristics[i])?;
        proof {
            if i > 0 {
                lemma_appended(old(out)@, before + ","@, item);
            } else {
                lemma_nothing_appended(item);
            }
        }
        i += 1;
    }
    Ok(())
}

/// Appends a service in JSON.
pub fn push_service(out: &mut String, s: &Service) -> (pushed: Result<(), HapError>)
    ensures
        pushed is Ok,
        final(out)@ == old(out)@ + service_json(*s),
{
    let ghost start = out@;
    out.append("{\"iid\":");
    let ghost d1 = "{\"iid\":"@;
    push_decimal(out, s.id);
    let ghost d2 = d1 + decimal(s.id as nat);
    proof {
        lemma_appended(start, d1, decimal(s.id as nat));
    }
    out.append(",\"type\":");
    let ghost d3 = d2 + ",\"type\":"@;
    proof {
        lemma_appended(start, d2, ",\"type\":"@);
    }
    push_json_string(out, s.hap_type.as_str())?;
    let ghost d4 = d3 + json_string(s.hap_type@);
    proof {
        lemma_appended(start, d3, json_string(s.hap_type@));
    }
    out.append(",\"characteristics\":[");
    let ghost d5 = d4 + ",\"characteristics\":["@;
    proof {
        lemma_appended(start, d4, ",\"characteristics\":["@);
    }
    push_characteristics(out, &s.characteristics)?;
    let ghost d6 = d5 + characteristics_json(s.characteristics@, s.characteristics@.len() as int);
    proof {
        lemma_appended(start, d5, characteristics_json(s.characteristics@, s.characteristics@.len() as int));
    }
    out.append("]}");
    proof {
        lemma_appended(start, d6, "]}"@);
    }
    Ok(())
}

/// Appends services in JSON, with commas between them.
fn push_services(out: &mut String, services: &Vec<Service>) -> (pushed: Result<(), HapError>)
    ensures
        pushed is Ok,
        final(out)@ == old(out)@ + services_json(services@, services@.len() as int),
{
    let mut i: usize = 0;
    proof {
        lemma_nothing_appended(old(out)@);
    }
    while i < services.len()
        invariant
            i <= services.len(),
            out@ == old(out)@ + services_json(services@, i as int),
        decreases services.len() - i,
    {
        let ghost before = services_json(services@, i as int);
        let ghost item = service_json(services@[i as int]);
        if i > 0 {
            out.append(",");
            proof {
                lemma_appended(old(out)@, before, ","@);
            }
        }
        push_service(out, &services[i])?;
        proof {
            if i > 0 {
                lemma_appended(old(out)@, before + ","@, item);
            } else {
                lemma_nothing_appended(item);
            }
        }
        i += 1;
    }
    Ok(())
}

/// Appends an accessory in JSON.
pub fn push_accessory(out: &mut String, aid: u64, services: &Vec<Service>) -> (pushed: Result<
    (),
    HapError,
>)
    ensures
        pushed is Ok,
        final(out)@ == old(out)@ + accessory_json(aid, services@),
{
    let ghost start = out@;
    out.append("{\"aid\":");
    let ghost d1 = "{\"aid\":"@;
    push_decimal(out, aid);
    let ghost d2 = d1 + decimal(aid as nat);
    proof {
        lemma_appended(start, d1, decimal(aid as nat));
    }
    out.append(",\"services\":[");
    let ghost d3 = d2 + ",\"services\":["@;
    proof {
        lemma_appended(start, d2, ",\"services\":["@);
    }
    push_services(out, services)?;
    let ghost d4 = d3 + services_json(services@, services@.len() as int);
    proof {
        lemma_appended(start, d3, services_json(services@, services@.len() as int));
    }
    out.append("]}");
    proof {
        lemma_appended(start, d4, "]}"@);
    }
    Ok(())
}

} // verus!
