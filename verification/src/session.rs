//! The persisted session's wire form.
//!
//! The single durable record — active tenant and refresh token — is
//! stored in the secure blob store as one JSON object with two string
//! fields. Encoding and decoding are defined here, and decoding is
//! proved to invert encoding, so a session written at one start-up is
//! read back intact at the next.

use vstd::prelude::*;

use crate::auth::PersistedSession;
use crate::json::{esc_char, esc_str, push_escaped};
use crate::text::{chars_of, push_str_chars, seq_starts_with, string_from_chars};

verus! {

/// The stored text of a session: a JSON object with the tenant and
/// the refresh token as escaped string fields.
pub open spec fn session_text(tenant: Seq<char>, refresh: Seq<char>) -> Seq<char> {
    "{\"tenant_id\":\""@ + esc_str(tenant) + seq!['"'] + ",\"refresh_token\":\""@ + esc_str(
        refresh,
    ) + seq!['"'] + seq!['}']
}

/// Serializes a session for the secure store.
pub fn encode_session(session: &PersistedSession) -> (r: String)
    ensures
        r@ == session_text(session.tenant_id@, session.refresh_token@),
{
    let mut out: Vec<char> = Vec::new();
    push_str_chars(&mut out, "{\"tenant_id\":\"");
    push_escaped(&mut out, session.tenant_id.as_str());
    out.push('"');
    push_str_chars(&mut out, ",\"refresh_token\":\"");
    push_escaped(&mut out, session.refresh_token.as_str());
    out.push('"');
    out.push('}');
    proof {
        assert(out@ =~= session_text(session.tenant_id@, session.refresh_token@));
    }
    string_from_chars(&out)
}

/// The character an escape code stands for, when it is one.
pub open spec fn unesc_code(c: char) -> Option<char> {
    if c == '"' {
        Some('"')
    } else if c == '\\' {
        Some('\\')
    } else if c == 'n' {
        Some('\n')
    } else if c == 'r' {
        Some('\r')
    } else if c == 't' {
        Some('\t')
    } else {
        None
    }
}

/// Scans an escaped string body up to its closing quote: the content
/// read and the number of characters consumed, closing quote
/// included; `None` when the text is not a terminated string body.
pub open spec fn scan_string(s: Seq<char>) -> Option<(Seq<char>, int)>
    decreases s.len(),
{
    if s.len() == 0 {
        None
    } else if s[0] == '"' {
        Some((Seq::empty(), 1))
    } else if s[0] == '\\' {
        if s.len() < 2 {
            None
        } else {
            match unesc_code(s[1]) {
                None => None,
                Some(c) => match scan_string(s.skip(2)) {
                    None => None,
                    Some((content, used)) => Some((seq![c] + content, used + 2)),
                },
            }
        }
    } else {
        match scan_string(s.drop_first()) {
            None => None,
            Some((content, used)) => Some((seq![s[0]] + content, used + 1)),
        }
    }
}

/// Scanning an escaped string followed by its closing quote yields
/// the original string back, whatever follows.
pub proof fn lemma_scan_escaped(s: Seq<char>, rest: Seq<char>)
    ensures
        scan_string(esc_str(s) + seq!['"'] + rest) == Some((s, esc_str(s).len() as int + 1)),
    decreases s.len(),
{
    let full = esc_str(s) + seq!['"'] + rest;
    if s.len() == 0 {
        assert(full =~= seq!['"'] + rest);
        assert(full[0] == '"');
    } else {
        let c = s[0];
        let tail = s.drop_first();
        lemma_scan_escaped(tail, rest);
        assert(esc_str(s) == esc_char(c) + esc_str(tail));
        if c == '"' || c == '\\' || c == '\n' || c == '\r' || c == '\t' {
            assert(esc_char(c).len() == 2 && esc_char(c)[0] == '\\');
            assert(full[0] == '\\');
            assert(full[1] == esc_char(c)[1]);
            assert(unesc_code(esc_char(c)[1]) == Some(c));
            assert(full.skip(2) =~= esc_str(tail) + seq!['"'] + rest);
            assert(seq![c] + tail =~= s);
        } else {
            assert(esc_char(c) =~= seq![c]);
            assert(full[0] == c);
            assert(c != '"' && c != '\\');
            assert(full.drop_first() =~= esc_str(tail) + seq!['"'] + rest);
            assert(seq![c] + tail =~= s);
        }
    }
}

/// What decoding a stored blob yields: the tenant and refresh token,
/// or nothing when the text is not a session record.
pub open spec fn decode_session_spec(s: Seq<char>) -> Option<(Seq<char>, Seq<char>)> {
    if !seq_starts_with(s, "{\"tenant_id\":\""@) {
        None
    } else {
        let after_tenant_key = s.skip("{\"tenant_id\":\""@.len() as int);
        match scan_string(after_tenant_key) {
            None => None,
            Some((tenant, used1)) => {
                let after_tenant = after_tenant_key.skip(used1);
                if !seq_starts_with(after_tenant, ",\"refresh_token\":\""@) {
                    None
                } else {
                    let after_refresh_key = after_tenant.skip(
                        ",\"refresh_token\":\""@.len() as int,
                    );
                    match scan_string(after_refresh_key) {
                        None => None,
                        Some((refresh, used2)) => {
                            if after_refresh_key.skip(used2) =~= seq!['}'] {
                                Some((tenant, refresh))
                            } else {
                                None
                            }
                        },
                    }
                }
            },
        }
    }
}

/// Decoding inverts encoding: a stored session is read back intact.
pub proof fn lemma_session_round_trip(tenant: Seq<char>, refresh: Seq<char>)
    ensures
        decode_session_spec(session_text(tenant, refresh)) == Some((tenant, refresh)),
{
    let s = session_text(tenant, refresh);
    let p1 = "{\"tenant_id\":\""@;
    let p2 = ",\"refresh_token\":\""@;
    let rest1 = p2 + esc_str(refresh) + seq!['"'] + seq!['}'];
    assert(s.take(p1.len() as int) =~= p1);
    assert(seq_starts_with(s, p1));
    let after_tenant_key = s.skip(p1.len() as int);
    assert(after_tenant_key =~= esc_str(tenant) + seq!['"'] + rest1);
    lemma_scan_escaped(tenant, rest1);
    let used1 = esc_str(tenant).len() + 1;
    let after_tenant = after_tenant_key.skip(used1 as int);
    assert(after_tenant =~= rest1);
    assert(after_tenant.take(p2.len() as int) =~= p2);
    assert(seq_starts_with(after_tenant, p2));
    let after_refresh_key = after_tenant.skip(p2.len() as int);
    assert(after_refresh_key =~= esc_str(refresh) + seq!['"'] + seq!['}']);
    lemma_scan_escaped(refresh, seq!['}']);
    let used2 = esc_str(refresh).len() + 1;
    assert(after_refresh_key.skip(used2 as int) =~= seq!['}']);
}

fn unesc_exec(c: char) -> (r: Option<char>)
    ensures
        r == unesc_code(c),
{
    if c == '"' {
        Some('"')
    } else if c == '\\' {
        Some('\\')
    } else if c == 'n' {
        Some('\n')
    } else if c == 'r' {
        Some('\r')
    } else if c == 't' {
        Some('\t')
    } else {
        None
    }
}

fn scan_exec(v: &Vec<char>, i: usize) -> (r: Option<(Vec<char>, usize)>)
    requires
        i <= v@.len(),
    ensures
        match r {
            Some(p) => i < p.1 <= v@.len() && scan_string(v@.skip(i as int)) == Some(
                (p.0@, p.1 - i),
            ),
            None => scan_string(v@.skip(i as int)) is None,
        },
    decreases v@.len() - i,
{
    if i == v.len() {
        return None;
    }
    let c = v[i];
    proof {
        assert(v@.skip(i as int)[0] == v@[i as int]);
    }
    if c == '"' {
        Some((Vec::new(), i + 1))
    } else if c == '\\' {
        if v.len() - i < 2 {
            proof {
                assert(v@.skip(i as int).len() < 2);
            }
            return None;
        }
        proof {
            assert(v@.skip(i as int)[1] == v@[i + 1 as int]);
        }
        match unesc_exec(v[i + 1]) {
            None => None,
            Some(u) => {
                proof {
                    assert(v@.skip(i as int).skip(2) =~= v@.skip(i + 2 as int));
                }
                match scan_exec(v, i + 2) {
                    None => None,
                    Some((content, j)) => {
                        let mut content = content;
                        content.insert(0, u);
                        proof {
                            assert(content@ =~= seq![u] + content@.skip(1));
                        }
                        Some((content, j))
                    },
                }
            },
        }
    } else {
        proof {
            assert(v@.skip(i as int).drop_first() =~= v@.skip(i + 1 as int));
        }
        match scan_exec(v, i + 1) {
            None => None,
            Some((content, j)) => {
                let mut content = content;
                content.insert(0, c);
                proof {
                    assert(content@ =~= seq![c] + content@.skip(1));
                }
                Some((content, j))
            },
        }
    }
}

fn match_at(v: &Vec<char>, i: usize, p: &str) -> (r: bool)
    requires
        i <= v@.len(),
    ensures
        r == seq_starts_with(v@.skip(i as int), p@),
{
    let m = p.unicode_len();
    let n = v.len();
    if m > n - i {
        return false;
    }
    let mut k: usize = 0;
    while k < m
        invariant
            k <= m,
            i + m <= n,
            n == v@.len(),
            m == p@.len(),
            forall|t: int| 0 <= t < k ==> v@[i + t] == p@[t],
        decreases m - k,
    {
        if v[i + k] != p.get_char(k) {
            proof {
                assert(v@.skip(i as int).take(p@.len() as int)[k as int] == v@[i + k]);
            }
            return false;
        }
        k += 1;
    }
    proof {
        assert(v@.skip(i as int).take(p@.len() as int) =~= p@);
    }
    true
}

/// Reads a stored blob back into a session; `None` when the text is
/// not a session record.
pub fn decode_session(raw: &str) -> (r: Option<PersistedSession>)
    ensures
        match r {
            Some(p) => decode_session_spec(raw@) == Some((p.tenant_id@, p.refresh_token@)),
            None => decode_session_spec(raw@) is None,
        },
{
    let v = chars_of(raw);
    if !match_at(&v, 0, "{\"tenant_id\":\"") {
        proof {
            assert(v@.skip(0) =~= raw@);
        }
        return None;
    }
    proof {
        assert(v@.skip(0) =~= raw@);
    }
    let p1_len = chars_of("{\"tenant_id\":\"").len();
    let (tenant_chars, j1) = match scan_exec(&v, p1_len) {
        None => {
            return None;
        },
        Some(p) => p,
    };
    if !match_at(&v, j1, ",\"refresh_token\":\"") {
        proof {
            assert(raw@.skip(p1_len as int).skip(j1 - p1_len) =~= raw@.skip(j1 as int));
        }
        return None;
    }
    let p2_len = chars_of(",\"refresh_token\":\"").len();
    if j1 > v.len() - p2_len {
        // unreachable: the prefix just matched, so there is room
        proof {
            assert(seq_starts_with(v@.skip(j1 as int), ",\"refresh_token\":\""@));
            assert(false);
        }
        return None;
    }
    proof {
        assert(raw@.skip(p1_len as int).skip(j1 - p1_len) =~= raw@.skip(j1 as int));
        assert(raw@.skip(j1 as int).skip(",\"refresh_token\":\""@.len() as int) =~= raw@.skip(
            j1 + p2_len,
        ));
    }
    let (refresh_chars, j2) = match scan_exec(&v, j1 + p2_len) {
        None => {
            return None;
        },
        Some(p) => p,
    };
    if v.len() - j2 == 1 && v[j2] == '}' {
        proof {
            assert(raw@.skip(j1 + p2_len).skip(j2 - (j1 + p2_len)) =~= raw@.skip(j2 as int));
            assert(raw@.skip(j2 as int) =~= seq![raw@[j2 as int]]);
        }
        Some(
            PersistedSession {
                tenant_id: string_from_chars(&tenant_chars),
                refresh_token: string_from_chars(&refresh_chars),
            },
        )
    } else {
        proof {
            assert(raw@.skip(j1 + p2_len).skip(j2 - (j1 + p2_len)) =~= raw@.skip(j2 as int));
            if raw@.skip(j2 as int) =~= seq!['}'] {
                assert(raw@.skip(j2 as int).len() == 1);
                assert(v@.len() - j2 == 1);
                assert(raw@.skip(j2 as int)[0] == raw@[j2 as int]);
                assert(raw@[j2 as int] == '}');
            }
        }
        None
    }
}

} // verus!
