use vstd::prelude::*;

verus! {

/// The pieces of `s` between commas, as `str::split(',')` yields them: an
/// empty string is one empty piece, and each comma starts a new piece.
pub open spec fn split_commas(s: Seq<char>) -> Seq<Seq<char>>
    decreases s.len(),
{
    if s.len() == 0 {
        seq![Seq::<char>::empty()]
    } else {
        let init = split_commas(s.drop_last());
        if s.last() == ',' {
            init.push(Seq::<char>::empty())
        } else {
            init.update(init.len() - 1, init.last().push(s.last()))
        }
    }
}

/// The pieces that are not empty, in order.
pub open spec fn nonempty(pieces: Seq<Seq<char>>) -> Seq<Seq<char>>
    decreases pieces.len(),
{
    if pieces.len() == 0 {
        Seq::empty()
    } else if pieces.last().len() > 0 {
        nonempty(pieces.drop_last()).push(pieces.last())
    } else {
        nonempty(pieces.drop_last())
    }
}

/// The registration domains of a stored comma-separated list: its non-empty
/// comma-separated pieces; none where no list is stored.
pub open spec fn domains_of(list: Option<String>) -> Seq<Seq<char>> {
    match list {
        Some(s) => nonempty(split_commas(s@)),
        None => Seq::empty(),
    }
}

/// The non-empty comma-separated pieces of `s`, in order.
pub fn split_domain_list(s: &str) -> (r: Vec<String>)
    ensures
        r@.map_values(|p: String| p@) == nonempty(split_commas(s@)),
{
    let n = s.unicode_len();
    let mut out: Vec<String> = Vec::new();
    let mut start: usize = 0;
    let mut i: usize = 0;
    let ghost mut done: Seq<Seq<char>> = Seq::empty();
    proof {
        assert(s@.subrange(0, 0) =~= Seq::<char>::empty());
        assert(s@.subrange(0, 0).len() == 0);
        assert(split_commas(s@.subrange(0, 0)) == seq![Seq::<char>::empty()]);
        assert(s@.subrange(0, 0) =~= s@.subrange(start as int, i as int));
    }
    while i < n
        invariant
            n == s@.len(),
            0 <= start <= i <= n,
            split_commas(s@.subrange(0, i as int)) == done.push(s@.subrange(start as int, i as int)),
            out@.map_values(|p: String| p@) == nonempty(done),
        decreases n - i,
    {
        let c = s.get_char(i);
        let ghost piece = s@.subrange(start as int, i as int);
        proof {
            assert(s@.subrange(0, i + 1).drop_last() =~= s@.subrange(0, i as int));
            assert(s@.subrange(0, i + 1).last() == c);
        }
        if c == ',' {
            if i > start {
                let p = s.substring_char(start, i).to_owned();
                out.push(p);
            }
            proof {
                let nd = done.push(piece);
                assert(nd.drop_last() =~= done);
                assert(out@.map_values(|p: String| p@) =~= nonempty(nd));
                done = nd;
                assert(s@.subrange(i + 1, i + 1) =~= Seq::<char>::empty());
                assert(split_commas(s@.subrange(0, i + 1)) =~= done.push(s@.subrange(i + 1, i + 1)));
            }
            start = i + 1;
        } else {
            proof {
                assert(s@.subrange(start as int, i + 1) =~= piece.push(c));
                assert(split_commas(s@.subrange(0, i + 1)) =~= done.push(s@.subrange(start as int, i + 1)));
            }
        }
        i = i + 1;
    }
    let ghost piece = s@.subrange(start as int, n as int);
    if n > start {
        let p = s.substring_char(start, n).to_owned();
        out.push(p);
    }
    proof {
        let all = done.push(piece);
        assert(all.drop_last() =~= done);
        assert(s@.subrange(0, n as int) =~= s@);
        assert(out@.map_values(|p: String| p@) =~= nonempty(all));
    }
    out
}

/// Server-wide settings as storage keeps them, in one row.
#[derive(Clone, Debug, PartialEq, Eq)]
pub struct ServerSettingDAO {
    pub security_allowed_register_domain_list: Option<String>,
    pub security_disable_client_side_telemetry: bool,
    pub network_external_url: String,
    pub billing_enterprise_license: Option<String>,
    pub security_disable_password_login: bool,
}

/// The security part of the server-wide settings.
#[derive(Clone, Debug, PartialEq, Eq)]
pub struct SecuritySetting {
    pub allowed_register_domain_list: Vec<String>,
    pub disable_client_side_telemetry: bool,
    pub disable_password_login: bool,
}

/// The network part of the server-wide settings.
#[derive(Clone, Debug, PartialEq, Eq)]
pub struct NetworkSetting {
    pub external_url: String,
}

/// What the security view of a settings row holds.
pub open spec fn security_view(row: ServerSettingDAO) -> (Seq<Seq<char>>, bool, bool) {
    (
        domains_of(row.security_allowed_register_domain_list),
        row.security_disable_client_side_telemetry,
        row.security_disable_password_login,
    )
}

/// What the network view of a settings row holds.
pub open spec fn network_view(row: ServerSettingDAO) -> Seq<char> {
    row.network_external_url@
}

impl SecuritySetting {
    /// The security view of a settings row: its three security fields, the
    /// domain list split into its non-empty comma-separated pieces.
    pub fn from_dao(value: &ServerSettingDAO) -> (r: SecuritySetting)
        ensures
            (r.allowed_register_domain_list@.map_values(|p: String| p@), r.disable_client_side_telemetry,
                r.disable_password_login) == security_view(*value),
    {
        let allowed_register_domain_list = match &value.security_allowed_register_domain_list {
            Some(list) => split_domain_list(list.as_str()),
            None => {
                let v: Vec<String> = Vec::new();
                assert(v@.map_values(|p: String| p@) =~= Seq::<Seq<char>>::empty());
                v
            },
        };
        SecuritySetting {
            allowed_register_domain_list,
            disable_client_side_telemetry: value.security_disable_client_side_telemetry,
            disable_password_login: value.security_disable_password_login,
        }
    }
}

impl NetworkSetting {
    /// The network view of a settings row: its external URL.
    pub fn from_dao(value: &ServerSettingDAO) -> (r: NetworkSetting)
        ensures
            r.external_url@ == network_view(*value),
    {
        NetworkSetting { external_url: value.network_external_url.clone() }
    }
}

/// The two views of one settings row read disjoint fields: rows that differ
/// only outside the security fields have the same security view, and rows
/// that differ only outside the external URL have the same network view.
pub proof fn lemma_settings_views_disjoint(a: ServerSettingDAO, b: ServerSettingDAO)
    ensures
        a.security_allowed_register_domain_list == b.security_allowed_register_domain_list
            && a.security_disable_client_side_telemetry == b.security_disable_client_side_telemetry
            && a.security_disable_password_login == b.security_disable_password_login
            ==> security_view(a) == security_view(b),
        a.network_external_url == b.network_external_url ==> network_view(a) == network_view(b),
{
}

} // verus!
