//! Developer mode and the SSH key installed for it: which keys are
//! accepted.
use vstd::prelude::*;
use crate::encoding::{base64_decoded, base64_standard_decode};
use crate::jiggler::{field_len, first_field};
use crate::text::{
    chars_of, is_white_space, is_white_space_exec, lead_ws, lemma_lead_ws_prefix, lines, lines_of, owned,
    slice_range, string_of, trim_chars, trimmed,
};

verus! {

/// The file whose presence turns developer mode on.
pub const DEV_MODE_FILE: &'static str = "/userdata/rustkvm/devmode.enable";

/// Where the SSH key is kept.
pub const SSH_KEY_FILE: &'static str = "/userdata/dropbear/.ssh/authorized_keys";

/// Whether developer mode is on.
pub struct DevModeState {
    pub enabled: bool,
}

/// The key types accepted.
pub open spec fn key_type_ok(t: Seq<char>) -> bool {
    t == "ssh-rsa"@ || t == "ssh-ed25519"@ || t == "ecdsa-sha2-nistp256"@ || t == "ecdsa-sha2-nistp384"@
        || t == "ecdsa-sha2-nistp521"@ || t == "sk-ssh-ed25519@openssh.com"@ || t
        == "sk-ecdsa-sha2-nistp256@openssh.com"@
}

/// What is wrong with a key line.
#[derive(Debug, PartialEq, Eq)]
pub enum KeyFault {
    UnsupportedType(String),
    MissingBlob,
    MalformedBlob,
}

/// What is wrong with a key line, as plain values.
pub enum KeyFaultView {
    UnsupportedType(Seq<char>),
    MissingBlob,
    MalformedBlob,
}

/// The plain form of a fault.
pub open spec fn fault_view(f: KeyFault) -> KeyFaultView {
    match f {
        KeyFault::UnsupportedType(t) => KeyFaultView::UnsupportedType(t@),
        KeyFault::MissingBlob => KeyFaultView::MissingBlob,
        KeyFault::MalformedBlob => KeyFaultView::MalformedBlob,
    }
}

/// What a line of a key file is.
pub enum LineVerdict {
    /// Blank or a comment.
    Skip,
    /// A usable key.
    Valid,
    /// A key line with a fault.
    Fault(KeyFaultView),
}

/// What follows the first field of `s`.
pub open spec fn after_first_field(s: Seq<char>) -> Seq<char> {
    let t = s.skip(lead_ws(s) as int);
    t.skip(field_len(t) as int)
}

/// What a line is: blank lines and comments are skipped; otherwise its
/// first field is the key type, which must be known, and its second the
/// key, which must be base64.
pub open spec fn line_verdict(line: Seq<char>) -> LineVerdict {
    let t = trimmed(line);
    if t.len() == 0 || t[0] == '#' {
        LineVerdict::Skip
    } else {
        match first_field(t) {
            None => LineVerdict::Skip,
            Some(ty) => if !key_type_ok(ty) {
                LineVerdict::Fault(KeyFaultView::UnsupportedType(ty))
            } else {
                match first_field(after_first_field(t)) {
                    None => LineVerdict::Fault(KeyFaultView::MissingBlob),
                    Some(b) => if base64_decoded(b) is Some {
                        LineVerdict::Valid
                    } else {
                        LineVerdict::Fault(KeyFaultView::MalformedBlob)
                    },
                }
            },
        }
    }
}

/// Going through the lines: whether a usable key was seen, and the last
/// fault seen.
pub open spec fn key_scan(ls: Seq<Seq<char>>) -> (bool, Option<KeyFaultView>)
    decreases ls.len(),
{
    if ls.len() == 0 {
        (false, None)
    } else {
        let (v, e) = key_scan(ls.drop_last());
        match line_verdict(ls.last()) {
            LineVerdict::Skip => (v, e),
            LineVerdict::Valid => (true, e),
            LineVerdict::Fault(f) => (v, Some(f)),
        }
    }
}

/// Why a key was refused.
#[derive(Debug, PartialEq, Eq)]
pub enum SshKeyError {
    /// No usable key; the last line's fault, if any.
    Invalid(Option<KeyFault>),
}

/// The bounds of the first field of `s` at or after `from`: where it
/// starts (after white space) and ends.
pub fn field_at(s: &[char], from: usize) -> (r: (usize, usize))
    requires
        from <= s@.len(),
    ensures
        from <= r.0 <= r.1 <= s@.len(),
        r.0 == from + lead_ws(s@.skip(from as int)),
        r.1 == r.0 + field_len(s@.skip(r.0 as int)),
{
    let mut a: usize = from;
    while a < s.len() && is_white_space_exec(s[a])
        invariant
            from <= a <= s@.len(),
            forall|j: int| from <= j < a ==> is_white_space(#[trigger] s@[j]),
        decreases s@.len() - a,
    {
        a = a + 1;
    }
    proof {
        let t = s@.skip(from as int);
        assert forall|j: int| 0 <= j < a - from implies is_white_space(#[trigger] t[j]) by {
            assert(t[j] == s@[from + j]);
        }
        lemma_lead_ws_prefix(t, a - from);
        let u = t.subrange(a - from, t.len() as int);
        assert(u =~= s@.skip(a as int));
        if u.len() > 0 {
            assert(u[0] == s@[a as int]);
        }
        assert(lead_ws(u) == 0);
    }
    let mut b: usize = a;
    while b < s.len() && !is_white_space_exec(s[b])
        invariant
            a <= b <= s@.len(),
            forall|j: int| a <= j < b ==> !is_white_space(#[trigger] s@[j]),
        decreases s@.len() - b,
    {
        b = b + 1;
    }
    proof {
        let t = s@.skip(a as int);
        assert forall|j: int| 0 <= j < b - a implies !is_white_space(#[trigger] t[j]) by {
            assert(t[j] == s@[a + j]);
        }
        crate::jiggler::lemma_field_len_prefix(t, b - a);
        let u = t.subrange(b - a, t.len() as int);
        if u.len() > 0 {
            assert(u[0] == s@[b as int]);
        }
        assert(field_len(u) == 0);
    }
    (a, b)
}

fn line_verdict_exec(line: &[char]) -> (r: Result<bool, KeyFault>)
    ensures
        match r {
            Ok(false) => line_verdict(line@) is Skip,
            Ok(true) => line_verdict(line@) is Valid,
            Err(f) => line_verdict(line@) == LineVerdict::Fault(fault_view(f)),
        },
{
    let t = trim_chars(line);
    if t.len() == 0 || t[0] == '#' {
        return Ok(false);
    }
    let (a, b) = field_at(t.as_slice(), 0);
    assert(t@.skip(0) =~= t@);
    if a == t.len() {
        proof {
            assert(t@.skip(a as int).len() == 0);
        }
        return Ok(false);
    }
    let ty = slice_range(t.as_slice(), a, b);
    proof {
        assert(ty@ =~= t@.skip(a as int).take(field_len(t@.skip(a as int)) as int));
    }
    let tys = string_of(ty.as_slice());
    let s = tys.as_str();
    proof {
        reveal_strlit("ssh-rsa");
    }
    let known = crate::text::same_text(s, "ssh-rsa") || crate::text::same_text(s, "ssh-ed25519")
        || crate::text::same_text(s, "ecdsa-sha2-nistp256") || crate::text::same_text(s, "ecdsa-sha2-nistp384")
        || crate::text::same_text(s, "ecdsa-sha2-nistp521") || crate::text::same_text(
        s,
        "sk-ssh-ed25519@openssh.com",
    ) || crate::text::same_text(s, "sk-ecdsa-sha2-nistp256@openssh.com");
    if !known {
        return Err(KeyFault::UnsupportedType(tys));
    }
    let (c, d) = field_at(t.as_slice(), b);
    proof {
        let rest = after_first_field(t@);
        assert(rest =~= t@.skip(b as int));
    }
    if c == t.len() {
        proof {
            assert(t@.skip(b as int).skip(lead_ws(t@.skip(b as int)) as int).len() == 0);
        }
        return Err(KeyFault::MissingBlob);
    }
    let blob = slice_range(t.as_slice(), c, d);
    let bs = string_of(blob.as_slice());
    proof {
        let rest = t@.skip(b as int);
        assert(rest.skip(lead_ws(rest) as int) =~= t@.skip(c as int));
        assert(bs@ =~= t@.skip(c as int).take(field_len(t@.skip(c as int)) as int));
    }
    if base64_standard_decode(bs.as_str()).is_some() {
        Ok(true)
    } else {
        Err(KeyFault::MalformedBlob)
    }
}

/// Checks an SSH key text: accepted when some line holds a usable key;
/// otherwise refused with the fault of the last faulty line, if any.
pub fn validate_ssh_key(key: &str) -> (r: Result<(), SshKeyError>)
    ensures
        key_scan(lines_of(key@)).0 ==> r is Ok,
        !key_scan(lines_of(key@)).0 ==> match key_scan(lines_of(key@)).1 {
            None => r == Err::<(), SshKeyError>(SshKeyError::Invalid(None)),
            Some(f) => r matches Err(SshKeyError::Invalid(Some(g))) && fault_view(g) == f,
        },
{
    let cs = chars_of(key);
    let ls = lines(cs.as_slice());
    let ghost lv = ls@.map_values(|v: Vec<char>| v@);
    let mut valid = false;
    let mut last: Option<KeyFault> = None;
    let mut i: usize = 0;
    while i < ls.len()
        invariant
            i <= ls@.len(),
            lv == ls@.map_values(|v: Vec<char>| v@),
            lv == lines_of(key@),
            key_scan(lv.subrange(0, i as int)).0 == valid,
            match key_scan(lv.subrange(0, i as int)).1 {
                None => last is None,
                Some(f) => last matches Some(g) && fault_view(g) == f,
            },
        decreases ls@.len() - i,
    {
        assert(lv.subrange(0, i + 1).drop_last() =~= lv.subrange(0, i as int));
        match line_verdict_exec(ls[i].as_slice()) {
            Ok(true) => {
                valid = true;
            },
            Ok(false) => {},
            Err(f) => {
                last = Some(f);
            },
        }
        i = i + 1;
    }
    assert(lv.subrange(0, lv.len() as int) =~= lv);
    if valid {
        Ok(())
    } else {
        Err(SshKeyError::Invalid(last))
    }
}

/// What installing an SSH key does.
#[derive(Debug, PartialEq, Eq)]
pub enum SshKeyAction {
    /// Remove the key file (an empty key).
    Remove,
    /// Write the key to the key file.
    Write,
}

/// What installing an SSH key does: an empty key removes the file; any
/// other must pass the check before it is written.
pub fn set_ssh_key_state(key: &str) -> (r: Result<SshKeyAction, SshKeyError>)
    ensures
        key@.len() == 0 ==> r == Ok::<SshKeyAction, SshKeyError>(SshKeyAction::Remove),
        key@.len() > 0 && key_scan(lines_of(key@)).0 ==> r == Ok::<SshKeyAction, SshKeyError>(SshKeyAction::Write),
        key@.len() > 0 && !key_scan(lines_of(key@)).0 ==> r is Err,
{
    if key.unicode_len() == 0 {
        return Ok(SshKeyAction::Remove);
    }
    match validate_ssh_key(key) {
        Ok(()) => Ok(SshKeyAction::Write),
        Err(e) => Err(e),
    }
}

/// A text with no white space at either end is its own trimmed form.
proof fn lemma_trimmed_unchanged(s: Seq<char>)
    requires
        s.len() > 0,
        !is_white_space(s[0]),
        !is_white_space(s.last()),
    ensures
        trimmed(s) == s,
{
    assert(lead_ws(s) == 0);
    assert(s.subrange(0, s.len() as int) =~= s);
}

/// The field after the first space of `ty + " " + blob + tail` is `blob`,
/// when neither holds white space and `tail` is empty or starts with it.
proof fn lemma_key_line_fields(ty: Seq<char>, blob: Seq<char>, tail: Seq<char>)
    requires
        ty.len() > 0,
        forall|i: int| 0 <= i < ty.len() ==> !is_white_space(#[trigger] ty[i]),
        blob.len() > 0,
        forall|i: int| 0 <= i < blob.len() ==> !is_white_space(#[trigger] blob[i]),
        tail.len() == 0 || is_white_space(tail[0]),
    ensures
        first_field(ty + seq![' '] + blob + tail) == Some(ty),
        first_field(after_first_field(ty + seq![' '] + blob + tail)) == Some(blob),
{
    let line = ty + seq![' '] + blob + tail;
    let bt = blob + tail;
    assert(line =~= ty + seq![' '] + bt);
    // The first field.
    assert(line[0] == ty[0]);
    assert(lead_ws(line) == 0);
    assert(line.skip(0) =~= line);
    assert forall|j: int| 0 <= j < ty.len() implies !is_white_space(#[trigger] line[j]) by {
        assert(line[j] == ty[j]);
    }
    crate::jiggler::lemma_field_len_prefix(line, ty.len() as int);
    let after = line.subrange(ty.len() as int, line.len() as int);
    assert(after =~= seq![' '] + bt);
    assert(after[0] == ' ');
    assert(field_len(after) == 0);
    assert(line.take(ty.len() as int) =~= ty);
    // The second field.
    assert(after_first_field(line) == after);
    assert(after.drop_first() =~= bt);
    assert(bt[0] == blob[0]);
    assert(lead_ws(bt) == 0);
    assert(lead_ws(after) == 1);
    assert(after.skip(1) =~= bt);
    assert forall|j: int| 0 <= j < blob.len() implies !is_white_space(#[trigger] bt[j]) by {
        assert(bt[j] == blob[j]);
    }
    crate::jiggler::lemma_field_len_prefix(bt, blob.len() as int);
    let t2 = bt.subrange(blob.len() as int, bt.len() as int);
    assert(t2 =~= tail);
    assert(field_len(t2) == 0);
    assert(bt.take(blob.len() as int) =~= blob);
}

/// What a key line `ty blob tail` is.
proof fn lemma_key_line_verdict(ty: Seq<char>, blob: Seq<char>, tail: Seq<char>)
    requires
        ty.len() > 0,
        ty[0] != '#',
        forall|i: int| 0 <= i < ty.len() ==> !is_white_space(#[trigger] ty[i]),
        blob.len() > 0,
        forall|i: int| 0 <= i < blob.len() ==> !is_white_space(#[trigger] blob[i]),
        tail.len() == 0 || (is_white_space(tail[0]) && !is_white_space(tail.last())),
        forall|i: int| 0 <= i < tail.len() ==> tail[i] != '\n',
    ensures
        lines_of(ty + seq![' '] + blob + tail) == seq![ty + seq![' '] + blob + tail],
        line_verdict(ty + seq![' '] + blob + tail) == (if !key_type_ok(ty) {
            LineVerdict::Fault(KeyFaultView::UnsupportedType(ty))
        } else if base64_decoded(blob) is Some {
            LineVerdict::Valid
        } else {
            LineVerdict::Fault(KeyFaultView::MalformedBlob)
        }),
{
    let line = ty + seq![' '] + blob + tail;
    assert(line[0] == ty[0]);
    if tail.len() == 0 {
        assert(line.last() == blob.last());
    } else {
        assert(line.last() == tail.last());
    }
    lemma_trimmed_unchanged(line);
    lemma_key_line_fields(ty, blob, tail);
    assert forall|j: int| 0 <= j < line.len() implies line[j] != '\n' by {
        if j < ty.len() {
            assert(line[j] == ty[j]);
            assert(!is_white_space(ty[j]));
        } else if j == ty.len() {
        } else if j < ty.len() + 1 + blob.len() {
            assert(line[j] == blob[j - ty.len() - 1]);
            assert(!is_white_space(blob[j - ty.len() - 1]));
        } else {
            assert(line[j] == tail[j - ty.len() - 1 - blob.len()]);
        }
    }
    crate::text::lemma_index_of_char(line, '\n', line.len() as int);
}

/// Every key type of the list (`ssh-rsa`, `ssh-ed25519`,
/// `ecdsa-sha2-nistp256`, `ecdsa-sha2-nistp384`, `ecdsa-sha2-nistp521`,
/// `sk-ssh-ed25519@openssh.com`, `sk-ecdsa-sha2-nistp256@openssh.com`) is
/// accepted: a key text of one line with such a type, a base64 blob after a
/// space, and an optional comment is a usable key.
pub proof fn lemma_listed_key_types_accepted(ty: Seq<char>, blob: Seq<char>, tail: Seq<char>)
    requires
        ty == "ssh-rsa"@ || ty == "ssh-ed25519"@ || ty == "ecdsa-sha2-nistp256"@ || ty
            == "ecdsa-sha2-nistp384"@ || ty == "ecdsa-sha2-nistp521"@ || ty == "sk-ssh-ed25519@openssh.com"@
            || ty == "sk-ecdsa-sha2-nistp256@openssh.com"@,
        blob.len() > 0,
        forall|i: int| 0 <= i < blob.len() ==> !is_white_space(#[trigger] blob[i]),
        base64_decoded(blob) is Some,
        tail.len() == 0 || (is_white_space(tail[0]) && !is_white_space(tail.last())),
        forall|i: int| 0 <= i < tail.len() ==> tail[i] != '\n',
    ensures
        line_verdict(ty + seq![' '] + blob + tail) is Valid,
        key_scan(lines_of(ty + seq![' '] + blob + tail)).0,
{
    reveal_strlit("ssh-rsa");
    reveal_strlit("ssh-ed25519");
    reveal_strlit("ecdsa-sha2-nistp256");
    reveal_strlit("ecdsa-sha2-nistp384");
    reveal_strlit("ecdsa-sha2-nistp521");
    reveal_strlit("sk-ssh-ed25519@openssh.com");
    reveal_strlit("sk-ecdsa-sha2-nistp256@openssh.com");
    assert forall|i: int| 0 <= i < ty.len() implies !is_white_space(#[trigger] ty[i]) by {}
    lemma_key_line_verdict(ty, blob, tail);
    let line = ty + seq![' '] + blob + tail;
    assert(seq![line].drop_last() =~= Seq::<Seq<char>>::empty());
}

/// A key type outside the list is refused for that type: a one-line key
/// text whose first field is any other type is no usable key, and its
/// fault names the type.
pub proof fn lemma_other_key_types_refused(ty: Seq<char>, blob: Seq<char>, tail: Seq<char>)
    requires
        !(ty == "ssh-rsa"@ || ty == "ssh-ed25519"@ || ty == "ecdsa-sha2-nistp256"@ || ty
            == "ecdsa-sha2-nistp384"@ || ty == "ecdsa-sha2-nistp521"@ || ty == "sk-ssh-ed25519@openssh.com"@
            || ty == "sk-ecdsa-sha2-nistp256@openssh.com"@),
        ty.len() > 0,
        ty[0] != '#',
        forall|i: int| 0 <= i < ty.len() ==> !is_white_space(#[trigger] ty[i]),
        blob.len() > 0,
        forall|i: int| 0 <= i < blob.len() ==> !is_white_space(#[trigger] blob[i]),
        tail.len() == 0 || (is_white_space(tail[0]) && !is_white_space(tail.last())),
        forall|i: int| 0 <= i < tail.len() ==> tail[i] != '\n',
    ensures
        line_verdict(ty + seq![' '] + blob + tail) == LineVerdict::Fault(KeyFaultView::UnsupportedType(ty)),
        key_scan(lines_of(ty + seq![' '] + blob + tail)) == (false, Some(KeyFaultView::UnsupportedType(ty))),
{
    lemma_key_line_verdict(ty, blob, tail);
    let line = ty + seq![' '] + blob + tail;
    assert(seq![line].drop_last() =~= Seq::<Seq<char>>::empty());
    assert(key_scan(Seq::<Seq<char>>::empty()) == (false, None::<KeyFaultView>));
    assert(key_scan(seq![line]) == (false, Some(KeyFaultView::UnsupportedType(ty))));
}

} // verus!
