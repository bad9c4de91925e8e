// Device enumeration: reading `adb devices -l` and naming devices.
use vstd::prelude::*;

use crate::adb::executor::{status_from_text, AdbClient, CommandOutput, DeviceInfo, DeviceStatus};
use crate::error::{opt_view, AppError};
use crate::text::{char_to_uppercase, chars_of, dv, lines, lines_of, lowercase, lowercase_chars, split_whitespace, starts_with, starts_with_chars, string_of, string_of_range, strip_prefix_str, trim, trimmed, trimmed_chars, uppercase_char, words};

verus! {

/// The prefixed value of the last word of `parts` that starts with `pre`.
pub open spec fn last_prefixed(parts: Seq<Seq<char>>, pre: Seq<char>) -> Option<Seq<char>>
    decreases parts.len(),
{
    if parts.len() == 0 {
        None
    } else if starts_with(parts.last(), pre) {
        Some(parts.last().skip(pre.len() as int))
    } else {
        last_prefixed(parts.drop_last(), pre)
    }
}

/// The whitespace-separated fields of a device line, when it has at least two.
pub open spec fn line_fields(line: Seq<char>) -> Option<Seq<Seq<char>>> {
    let t = trim(line);
    let p = words(t);
    if t.len() > 0 && p.len() >= 2 {
        Some(p)
    } else {
        None
    }
}

/// The field lists of the device lines among `ls`, in order.
pub open spec fn fields_of_lines(ls: Seq<Seq<char>>) -> Seq<Seq<Seq<char>>>
    decreases ls.len(),
{
    if ls.len() == 0 {
        seq![]
    } else {
        fields_of_lines(ls.drop_last()) + match line_fields(ls.last()) {
            Some(p) => seq![p],
            None => seq![],
        }
    }
}

/// `d` is the device that the fields `p` of one line describe: serial, state,
/// and the last `model:` and `product:` values after the state.
pub open spec fn device_from_fields(d: DeviceInfo, p: Seq<Seq<char>>) -> bool {
    &&& d.id@ == p[0]
    &&& status_from_text(d.status, p[1])
    &&& opt_view(d.model) == last_prefixed(p.skip(2), "model:"@)
    &&& opt_view(d.product) == last_prefixed(p.skip(2), "product:"@)
}

/// The devices listed by `adb devices -l` output `out`: one per device line after
/// the header line.
pub open spec fn devices_listed(r: Seq<DeviceInfo>, out: Seq<char>) -> bool {
    let ls = lines(out);
    let fs = fields_of_lines(if ls.len() > 0 { ls.drop_first() } else { ls });
    &&& r.len() == fs.len()
    &&& forall|i: int| 0 <= i < r.len() ==> device_from_fields(#[trigger] r[i], fs[i])
}

/// The display name of a device: the model, prefixed by the capitalized brand
/// unless the model already starts with the brand (ignoring case).
pub open spec fn display_name(brand: Option<Seq<char>>, model: Option<Seq<char>>) -> Option<Seq<char>> {
    match (brand, model) {
        (Some(b), Some(m)) => if starts_with(lowercase(m), lowercase(b)) {
            Some(m)
        } else {
            Some(capitalized(b) + seq![' '] + m)
        },
        (None, Some(m)) => Some(m),
        (Some(b), None) => Some(b),
        (None, None) => None,
    }
}

/// `b` with its first character uppercased.
pub open spec fn capitalized(b: Seq<char>) -> Seq<char> {
    if b.len() == 0 {
        b
    } else {
        uppercase_char(b[0]) + b.drop_first()
    }
}

/// A property value read by `getprop`: the trimmed output of a successful run,
/// unless empty.
pub open spec fn prop_value(run: Result<CommandOutput, AppError>) -> Option<Seq<char>> {
    match run {
        Ok(o) => if o.success && trim(o.stdout@).len() > 0 {
            Some(trim(o.stdout@))
        } else {
            None
        },
        Err(_) => None,
    }
}

/// Discovers and identifies connected Android devices.
pub struct AdbDiscovery<'a> {
    client: &'a AdbClient,
}

fn device_from_line(p: &Vec<Vec<char>>) -> (d: DeviceInfo)
    requires
        p.len() >= 2,
    ensures
        device_from_fields(d, dv(p@)),
{
    let id = string_of(p[0].as_slice());
    let st = string_of(p[1].as_slice());
    let status = DeviceStatus::from_text(st.as_str());
    let mut model: Option<String> = None;
    let mut product: Option<String> = None;
    let ghost rest = dv(p@).skip(2);
    let mut k: usize = 2;
    proof {
        assert(rest.take(0) =~= Seq::<Seq<char>>::empty());
    }
    while k < p.len()
        invariant
            2 <= k <= p.len(),
            rest == dv(p@).skip(2),
            opt_view(model) == last_prefixed(rest.take(k - 2), "model:"@),
            opt_view(product) == last_prefixed(rest.take(k - 2), "product:"@),
        decreases p.len() - k,
    {
        let part = &p[k];
        let ghost t = rest.take(k - 1);
        proof {
            assert(t.drop_last() =~= rest.take(k - 2));
            assert(t.last() == part@);
        }
        proof {
            reveal_strlit("model:");
            reveal_strlit("product:");
            if starts_with(part@, "model:"@) {
                assert("model:"@.len() == 6);
                assert(part@.take(6)[0] == part@[0]);
                assert("model:"@[0] == 'm');
                assert(part@[0] == 'm');
                if starts_with(part@, "product:"@) {
                    assert(part@.take(8)[0] == part@[0]);
                    assert("product:"@[0] == 'p');
                }
                assert(!starts_with(part@, "product:"@));
            }
        }
        match strip_prefix_str(part, "model:") {
            Some(v) => {
                model = Some(string_of(v.as_slice()));
            },
            None => {
                match strip_prefix_str(part, "product:") {
                    Some(v) => {
                        product = Some(string_of(v.as_slice()));
                    },
                    None => {},
                }
            },
        }
        k = k + 1;
    }
    proof {
        assert(rest.take(p.len() - 2) =~= rest);
    }
    DeviceInfo { id, status, model, product }
}

impl<'a> AdbDiscovery<'a> {
    pub fn new(client: &'a AdbClient) -> (r: Self)
        ensures
            r.client() == client,
    {
        AdbDiscovery { client }
    }

    pub closed spec fn client(self) -> &'a AdbClient {
        self.client
    }

    /// Reads the output of `adb devices -l`: every line after the header with a
    /// serial and a state becomes a device.
    fn parse_devices_output(&self, output: &str) -> (r: Vec<DeviceInfo>)
        ensures
            devices_listed(r@, output@),
    {
        let chars = chars_of(output);
        let ls = lines_of(&chars);
        let ghost all = lines(output@);
        let ghost body = if all.len() > 0 { all.drop_first() } else { all };
        let mut devices: Vec<DeviceInfo> = Vec::new();
        if ls.len() == 0 {
            return devices;
        }
        let mut i: usize = 1;
        proof {
            assert(body.take(0) =~= Seq::<Seq<char>>::empty());
        }
        while i < ls.len()
            invariant
                1 <= i <= ls.len(),
                dv(ls@) == all,
                all.len() > 0,
                body == all.drop_first(),
                devices@.len() == fields_of_lines(body.take(i - 1)).len(),
                forall|j: int| 0 <= j < devices@.len() ==> device_from_fields(#[trigger] devices@[j], fields_of_lines(body.take(i - 1))[j]),
            decreases ls.len() - i,
        {
            let line = trimmed_chars(&ls[i]);
            let ghost prev = fields_of_lines(body.take(i - 1));
            let ghost t = body.take(i as int);
            proof {
                assert(t.drop_last() =~= body.take(i - 1));
                assert(t.last() == ls@[i as int]@);
            }
            if line.len() > 0 {
                let parts = split_whitespace(&line);
                if parts.len() >= 2 {
                    let d = device_from_line(&parts);
                    devices.push(d);
                    proof {
                        assert(fields_of_lines(t) == prev + seq![dv(parts@)]);
                        assert forall|j: int| 0 <= j < devices@.len() implies device_from_fields(#[trigger] devices@[j], fields_of_lines(t)[j]) by {
                            if j < prev.len() {
                                assert(fields_of_lines(t)[j] == prev[j]);
                            }
                        }
                    }
                } else {
                    assert(fields_of_lines(t) =~= prev);
                }
            } else {
                assert(fields_of_lines(t) =~= prev);
            }
            i = i + 1;
        }
        proof {
            assert(body.take(ls.len() - 1) =~= body);
        }
        devices
    }

    /// Reads the output of `adb devices -l` (exposed for tests).
    pub fn parse_devices_output_test(&self, output: &str) -> (r: Vec<DeviceInfo>)
        ensures
            devices_listed(r@, output@),
    {
        self.parse_devices_output(output)
    }

    /// The devices that a run of `adb devices -l` lists. Connected devices are
    /// named afterwards with `get_device_model_info`.
    pub fn list_devices(&self, run: Result<CommandOutput, AppError>) -> (r: Result<Vec<DeviceInfo>, AppError>)
        ensures
            match run {
                Ok(o) => r matches Ok(ds) && devices_listed(ds@, o.stdout@),
                Err(e) => r == Err::<Vec<DeviceInfo>, AppError>(e),
            },
    {
        match run {
            Ok(o) => Ok(self.parse_devices_output(o.stdout.as_str())),
            Err(e) => Err(e),
        }
    }

    /// A property value from a `getprop` run: trimmed output of a successful run,
    /// unless empty.
    pub fn prop_value(run: Result<CommandOutput, AppError>) -> (r: Option<String>)
        ensures
            opt_view(r) == prop_value(run),
    {
        match run {
            Ok(o) => {
                if o.success {
                    let t = trimmed(o.stdout.as_str());
                    let v = chars_of(t.as_str());
                    if v.len() > 0 {
                        Some(t)
                    } else {
                        None
                    }
                } else {
                    None
                }
            },
            Err(_) => None,
        }
    }

    /// The display name of a device from its brand and model properties (the
    /// model being the marketing name when the device has one).
    pub fn get_device_model_info(brand: Option<String>, model: Option<String>) -> (r: Option<String>)
        ensures
            opt_view(r) == display_name(opt_view(brand), opt_view(model)),
    {
        match (brand, model) {
            (Some(b), Some(m)) => {
                let bl = lowercase_chars(&chars_of(b.as_str()));
                let ml = lowercase_chars(&chars_of(m.as_str()));
                if starts_with_chars(&ml, &bl) {
                    Some(m)
                } else {
                    let bc = chars_of(b.as_str());
                    let mut out = String::new();
                    if bc.len() > 0 {
                        let up = char_to_uppercase(bc[0]);
                        out.append(up.as_str());
                        let rest = string_of_range(&bc, 1, bc.len());
                        out.append(rest.as_str());
                        assert(bc@.subrange(1, bc.len() as int) =~= bc@.drop_first());
                    }
                    crate::text::push_char(&mut out, ' ');
                    out.append(m.as_str());
                    assert(out@ =~= capitalized(b@) + seq![' '] + m@);
                    Some(out)
                }
            },
            (None, Some(m)) => Some(m),
            (Some(b), None) => Some(b),
            (None, None) => None,
        }
    }
}

} // verus!
