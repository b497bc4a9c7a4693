use vstd::prelude::*;
use crate::server::text::str_eq;

verus! {

/// One value of a multipart form: a text, or a file with its name and bytes.
pub enum MultipartField {
    Text(String),
    File(String, Vec<u8>),
}

/// A form value as plain values.
pub enum FieldView {
    Text(Seq<char>),
    File(Seq<char>, Seq<u8>),
}

pub open spec fn field_view(f: MultipartField) -> FieldView {
    match f {
        MultipartField::Text(t) => FieldView::Text(t@),
        MultipartField::File(n, b) => FieldView::File(n@, b@),
    }
}

/// The text that `String::from_utf8_lossy` reads from the bytes: each
/// invalid UTF-8 sequence becomes U+FFFD.
pub uninterp spec fn lossy_utf8(b: Seq<u8>) -> Seq<char>;

/// Reads the bytes as text through `String::from_utf8_lossy`; the text is
/// what `lossy_utf8` names for these bytes.
#[verifier::external_body]
fn utf8_lossy(bytes: &Vec<u8>) -> (s: String)
    ensures
        s@ == lossy_utf8(bytes@),
{
    String::from_utf8_lossy(bytes.as_slice()).into_owned()
}

/// A raw form value as read: a file when it comes with a file name, else
/// its bytes read as text.
pub open spec fn raw_field_view(filename: Option<Seq<char>>, data: Seq<u8>) -> FieldView {
    match filename {
        Some(n) => FieldView::File(n, data),
        None => FieldView::Text(lossy_utf8(data)),
    }
}

/// Builds a form value from what was received for it; see `raw_field_view`.
pub fn field_from_raw(filename: Option<String>, data: Vec<u8>) -> (f: MultipartField)
    ensures
        field_view(f) == raw_field_view(filename.deep_view(), data@),
{
    match filename {
        Some(name) => MultipartField::File(name, data),
        None => MultipartField::Text(utf8_lossy(&data)),
    }
}

/// The values of a form, each with its field name, as plain values.
pub open spec fn named_fields_view(s: Seq<(String, MultipartField)>) -> Seq<(Seq<char>, FieldView)> {
    s.map_values(|e: (String, MultipartField)| (e.0@, field_view(e.1)))
}

/// A list of form values as plain values.
pub open spec fn fields_view(s: Seq<MultipartField>) -> Seq<FieldView> {
    s.map_values(|f: MultipartField| field_view(f))
}

/// Values grouped by field name, as plain values.
pub open spec fn groups_view(s: Seq<(String, Vec<MultipartField>)>) -> Seq<(Seq<char>, Seq<FieldView>)> {
    s.map_values(|e: (String, Vec<MultipartField>)| (e.0@, fields_view(e.1@)))
}

/// Whether no two groups have the same name.
pub open spec fn names_unique(g: Seq<(Seq<char>, Seq<FieldView>)>) -> bool {
    forall|i: int, j: int| 0 <= i < j < g.len() ==> g[i].0 != g[j].0
}

/// The position of the group with the name.
pub open spec fn group_index(g: Seq<(Seq<char>, Seq<FieldView>)>, name: Seq<char>) -> Option<int> {
    if exists|i: int| 0 <= i < g.len() && g[i].0 == name {
        Some(choose|i: int| 0 <= i < g.len() && g[i].0 == name)
    } else {
        None
    }
}

/// The values of the group with the name.
pub open spec fn group_of(g: Seq<(Seq<char>, Seq<FieldView>)>, name: Seq<char>) -> Option<Seq<FieldView>> {
    match group_index(g, name) {
        Some(i) => Some(g[i].1),
        None => None,
    }
}

/// The groups after a value is added to its field's group, which is
/// appended when the field has none yet.
pub open spec fn insert_field(g: Seq<(Seq<char>, Seq<FieldView>)>, name: Seq<char>, f: FieldView) -> Seq<(Seq<char>, Seq<FieldView>)> {
    match group_index(g, name) {
        Some(i) => g.update(i, (name, g[i].1.push(f))),
        None => g.push((name, seq![f])),
    }
}

/// The form values grouped by field name, taking the values last one first.
pub open spec fn grouped(s: Seq<(Seq<char>, FieldView)>) -> Seq<(Seq<char>, Seq<FieldView>)>
    decreases s.len(),
{
    if s.len() == 0 {
        Seq::empty()
    } else {
        insert_field(grouped(s.drop_first()), s[0].0, s[0].1)
    }
}

proof fn lemma_insert_unique(g: Seq<(Seq<char>, Seq<FieldView>)>, name: Seq<char>, f: FieldView)
    requires
        names_unique(g),
    ensures
        names_unique(insert_field(g, name, f)),
{
}

/// Groups the values of a form by field name. Values are taken last one
/// first, so each group lists its values in reverse order of arrival, and a
/// group is appended when its field first turns up.
pub fn parse_multipart(fields: Vec<(String, MultipartField)>) -> (r: Vec<(String, Vec<MultipartField>)>)
    ensures
        groups_view(r@) == grouped(named_fields_view(fields@)),
        names_unique(groups_view(r@)),
{
    let ghost all = named_fields_view(fields@);
    let mut parsed = fields;
    let mut groups: Vec<(String, Vec<MultipartField>)> = Vec::new();
    assert(groups_view(groups@) =~= grouped(all.subrange(parsed.len() as int, all.len() as int)));
    while parsed.len() > 0
        invariant
            all.len() >= parsed.len(),
            named_fields_view(parsed@) == all.subrange(0, parsed.len() as int),
            groups_view(groups@) == grouped(all.subrange(parsed.len() as int, all.len() as int)),
            names_unique(groups_view(groups@)),
        decreases parsed.len(),
    {
        let ghost j = parsed.len() as int;
        let ghost g0 = groups_view(groups@);
        let ghost pv = named_fields_view(parsed@);
        let (name, field) = parsed.pop().unwrap();
        assert(pv[j - 1] == all[j - 1]);
        assert(named_fields_view(parsed@) =~= all.subrange(0, j - 1));
        let ghost fv = field_view(field);
        assert(all[j - 1] == (name@, fv));
        assert(all.subrange(j - 1, all.len() as int).drop_first() =~= all.subrange(j, all.len() as int));
        proof {
            lemma_insert_unique(g0, name@, fv);
        }
        let mut found: Option<usize> = None;
        let mut k: usize = 0;
        while k < groups.len()
            invariant
                k <= groups.len(),
                g0 == groups_view(groups@),
                found is None ==> forall|m: int| 0 <= m < k ==> g0[m].0 != name@,
                found is Some ==> found->0 < groups.len() && g0[found->0 as int].0 == name@,
            decreases groups.len() - k,
        {
            if found.is_none() && str_eq(groups[k].0.as_str(), name.as_str()) {
                found = Some(k);
            }
            k = k + 1;
        }
        match found {
            Some(i) => {
                proof {
                    assert(exists|m: int| 0 <= m < g0.len() && g0[m].0 == name@);
                    let c = choose|m: int| 0 <= m < g0.len() && g0[m].0 == name@;
                    assert(c == i as int);
                }
                let (gname, mut values) = groups.remove(i);
                let ghost vv = fields_view(values@);
                values.push(field);
                assert(fields_view(values@) =~= vv.push(fv));
                groups.insert(i, (gname, values));
                assert(groups_view(groups@) =~= g0.update(i as int, (name@, g0[i as int].1.push(fv))));
            },
            None => {
                let mut values: Vec<MultipartField> = Vec::new();
                values.push(field);
                assert(fields_view(values@) =~= seq![fv]);
                groups.push((name, values));
                assert(groups_view(groups@) =~= g0.push((name@, seq![fv])));
            },
        }
    }
    assert(all.subrange(0, all.len() as int) =~= all);
    groups
}

/// The texts among the values, in order.
pub open spec fn texts(fs: Seq<FieldView>) -> Seq<Seq<char>>
    decreases fs.len(),
{
    if fs.len() == 0 {
        Seq::empty()
    } else {
        let r = texts(fs.drop_last());
        match fs.last() {
            FieldView::Text(t) => r.push(t),
            FieldView::File(_, _) => r,
        }
    }
}

/// What a worker uploads after a build, as read from the upload form.
pub struct PackageBuildData {
    pub files: Option<Vec<MultipartField>>,
    pub log_files: Option<Vec<MultipartField>>,
    pub errors: Vec<String>,
    pub version: Option<String>,
}

/// The text that comes first in a group, if it is a text.
pub open spec fn first_text(g: Option<Seq<FieldView>>) -> Option<Seq<char>> {
    match g {
        Some(fs) => if fs.len() > 0 {
            match fs[0] {
                FieldView::Text(t) => Some(t),
                FieldView::File(_, _) => None,
            }
        } else {
            None
        },
        None => None,
    }
}

/// The built version an upload reports: the first `version` text, none when empty.
pub open spec fn upload_version(g: Seq<(Seq<char>, Seq<FieldView>)>) -> Option<Seq<char>> {
    match first_text(group_of(g, "version"@)) {
        Some(v) => if v.len() == 0 { None } else { Some(v) },
        None => None,
    }
}

/// The texts of a group, or none.
pub open spec fn group_texts(g: Option<Seq<FieldView>>) -> Seq<Seq<char>> {
    match g {
        Some(fs) => texts(fs),
        None => Seq::empty(),
    }
}

/// The values of a group, if there is one.
pub open spec fn opt_fields_view(o: Option<Vec<MultipartField>>) -> Option<Seq<FieldView>> {
    match o {
        Some(v) => Some(fields_view(v@)),
        None => None,
    }
}

fn take_group(groups: &mut Vec<(String, Vec<MultipartField>)>, name: &str) -> (r: Option<Vec<MultipartField>>)
    requires
        names_unique(groups_view(old(groups)@)),
    ensures
        names_unique(groups_view(final(groups)@)),
        opt_fields_view(r) == group_of(groups_view(old(groups)@), name@),
        forall|n: Seq<char>| n != name@ ==> #[trigger] group_of(groups_view(final(groups)@), n)
            == group_of(groups_view(old(groups)@), n),
{
    let ghost g0 = groups_view(groups@);
    let mut k: usize = 0;
    while k < groups.len()
        invariant
            k <= groups.len(),
            g0 == groups_view(groups@),
            g0 == groups_view(old(groups)@),
            names_unique(g0),
            forall|m: int| 0 <= m < k ==> g0[m].0 != name@,
        decreases groups.len() - k,
    {
        if str_eq(groups[k].0.as_str(), name) {
            proof {
                assert(g0[k as int].0 == name@);
                assert(exists|m: int| 0 <= m < g0.len() && g0[m].0 == name@);
                let c = choose|m: int| 0 <= m < g0.len() && g0[m].0 == name@;
                assert(c == k as int) by {
                    if c < k as int {
                    } else if c > k as int {
                        assert(g0[k as int].0 != g0[c].0);
                    }
                }
            }
            let ghost raw = groups@;
            let (_, values) = groups.remove(k);
            proof {
                assert(g0[k as int] == (raw[k as int].0@, fields_view(raw[k as int].1@)));
                assert(fields_view(values@) == g0[k as int].1);
                assert(group_of(g0, name@) == Some(g0[k as int].1));
                let g1 = groups_view(groups@);
                assert(g1 =~= g0.remove(k as int));
                assert forall|n: Seq<char>| n != name@ implies #[trigger] group_of(g1, n) == group_of(g0, n) by {
                    if exists|m: int| 0 <= m < g0.len() && g0[m].0 == n {
                        let a = choose|m: int| 0 <= m < g0.len() && g0[m].0 == n;
                        assert(a != k as int);
                        let a1 = if a < k { a } else { a - 1 };
                        assert(g1[a1].0 == n);
                        let b = choose|m: int| 0 <= m < g1.len() && g1[m].0 == n;
                        let b0 = if b < k { b } else { b + 1 };
                        assert(g0[b0] == g1[b]);
                        assert(b0 == a) by {
                            if b0 < a {
                                assert(g0[b0].0 != g0[a].0);
                            } else if b0 > a {
                                assert(g0[a].0 != g0[b0].0);
                            }
                        }
                    } else {
                        if exists|m: int| 0 <= m < g1.len() && g1[m].0 == n {
                            let b = choose|m: int| 0 <= m < g1.len() && g1[m].0 == n;
                            let b0 = if b < k { b } else { b + 1 };
                            assert(g0[b0] == g1[b]);
                        }
                    }
                }
            }
            return Some(values);
        }
        k = k + 1;
    }
    None
}

fn first_text_of(values: &Option<Vec<MultipartField>>) -> (r: Option<String>)
    ensures
        r.deep_view() == first_text(opt_fields_view(*values)),
{
    match values {
        Some(v) => {
            if v.len() > 0 {
                match &v[0] {
                    MultipartField::Text(t) => Some(t.clone()),
                    MultipartField::File(_, _) => None,
                }
            } else {
                None
            }
        },
        None => None,
    }
}

fn texts_of(values: &Option<Vec<MultipartField>>) -> (r: Vec<String>)
    ensures
        r.deep_view() == group_texts(opt_fields_view(*values)),
{
    let mut r: Vec<String> = Vec::new();
    match values {
        Some(v) => {
            let ghost fs = fields_view(v@);
            let mut i: usize = 0;
            while i < v.len()
                invariant
                    fs == fields_view(v@),
                    i <= v.len(),
                    r.deep_view() == texts(fs.subrange(0, i as int)),
                decreases v.len() - i,
            {
                let ghost before = r.deep_view();
                assert(fs.subrange(0, i as int + 1).drop_last() =~= fs.subrange(0, i as int));
                assert(fs.subrange(0, i as int + 1).last() == field_view(v@[i as int]));
                match &v[i] {
                    MultipartField::Text(t) => {
                        r.push(t.clone());
                        assert(r.deep_view() =~= before.push(t@));
                    },
                    MultipartField::File(_, _) => {},
                }
                i = i + 1;
            }
            assert(fs.subrange(0, i as int) =~= fs);
        },
        None => {
            assert(r.deep_view() =~= Seq::<Seq<char>>::empty());
        },
    }
    r
}

/// Reads an upload form: the package name is the first `package_name`
/// value, which must be a text (else the upload is refused); the version is
/// the first `version` text unless empty; the errors are the `error` texts;
/// the files and logs are the `files[]` and `log_files[]` values.
pub fn upload_build_data(fields: Vec<(String, MultipartField)>) -> (r: Option<(String, PackageBuildData)>)
    ensures
        ({
            let g = grouped(named_fields_view(fields@));
            match (first_text(group_of(g, "package_name"@)), r) {
                (Some(name), Some((n, d))) => {
                    &&& n@ == name
                    &&& d.version.deep_view() == upload_version(g)
                    &&& d.errors.deep_view() == group_texts(group_of(g, "error"@))
                    &&& opt_fields_view(d.files) == group_of(g, "files[]"@)
                    &&& opt_fields_view(d.log_files) == group_of(g, "log_files[]"@)
                },
                (None, None) => true,
                _ => false,
            }
        }),
{
    proof {
        reveal_strlit("package_name");
        reveal_strlit("version");
        reveal_strlit("error");
        reveal_strlit("files[]");
        reveal_strlit("log_files[]");
        assert("version"@.len() != "package_name"@.len());
        assert("error"@.len() != "package_name"@.len() && "error"@.len() != "version"@.len());
        assert("files[]"@[0] != "version"@[0]);
        assert("files[]"@.len() != "package_name"@.len() && "files[]"@.len() != "error"@.len());
        assert("log_files[]"@.len() != "package_name"@.len() && "log_files[]"@.len() != "version"@.len());
        assert("log_files[]"@.len() != "error"@.len() && "log_files[]"@.len() != "files[]"@.len());
        assert("files[]"@ != "package_name"@ && "files[]"@ != "version"@ && "files[]"@ != "error"@);
        assert("log_files[]"@ != "package_name"@ && "log_files[]"@ != "version"@
            && "log_files[]"@ != "error"@ && "log_files[]"@ != "files[]"@);
    }
    let mut groups = parse_multipart(fields);
    let name_values = take_group(&mut groups, "package_name");
    let version_values = take_group(&mut groups, "version");
    let error_values = take_group(&mut groups, "error");
    let files = take_group(&mut groups, "files[]");
    let log_files = take_group(&mut groups, "log_files[]");
    let package_name = match first_text_of(&name_values) {
        Some(n) => n,
        None => return None,
    };
    let version = match first_text_of(&version_values) {
        Some(v) => crate::server::http::parse_built_version(v),
        None => None,
    };
    let errors = texts_of(&error_values);
    Some((package_name, PackageBuildData { files, log_files, errors, version }))
}

} // verus!
