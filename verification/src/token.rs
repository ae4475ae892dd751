use vstd::prelude::*;
use vstd::string::*;

verus! {

/// The identity providers whose token endpoints are known.
#[derive(Clone, Copy, Debug, PartialEq, Eq, Structural)]
pub enum Provider {
    Google,
    Github,
}

/// Why no token came out of an exchange, as far as this library decides it.
#[derive(Clone, Copy, Debug, PartialEq, Eq, Structural)]
pub enum TokenError {
    /// The provider's name is not one of the known ones.
    UnsupportedProvider,
    /// The response names no access token.
    MissingAccessToken,
}

/// What a token endpoint answers.
#[derive(Debug)]
pub struct TokenResponse {
    pub access_token: String,
    pub token_type: Option<String>,
    pub expires_in: Option<u64>,
    pub refresh_token: Option<String>,
    pub scope: Option<String>,
}

/// The fields that a form-encoded response can set.
pub ghost struct FormFields {
    pub access_token: Option<Seq<char>>,
    pub token_type: Option<Seq<char>>,
    pub scope: Option<Seq<char>>,
}

/// The text that `urlencoding::decode` makes of `data`: `None` where the
/// decoded bytes are not UTF-8.
pub uninterp spec fn percent_decoded(data: Seq<char>) -> Option<Seq<char>>;

/// An optional string as contracts see it.
pub open spec fn text_of(s: Option<String>) -> Option<Seq<char>> {
    match s {
        Some(v) => Some(v@),
        None => None,
    }
}

/// The provider that a name stands for.
pub open spec fn provider_of(name: Seq<char>) -> Option<Provider> {
    if name == "google"@ {
        Some(Provider::Google)
    } else if name == "github"@ {
        Some(Provider::Github)
    } else {
        None
    }
}

/// The index of the first `c` in `s` at or after `from`, or the length of `s`
/// where there is none.
pub open spec fn find_from(s: Seq<char>, c: char, from: int) -> int
    decreases s.len() - from,
{
    if from >= s.len() {
        s.len() as int
    } else if s[from] == c {
        from
    } else {
        find_from(s, c, from + 1)
    }
}

/// The value of a field: its percent-decoded text, or the text as it stands
/// where that cannot be decoded.
pub open spec fn field_value(raw: Seq<char>, decoded: Option<Seq<char>>) -> Seq<char> {
    match decoded {
        Some(v) => v,
        None => raw,
    }
}

/// The fields after one `key=value` pair. A pair without `=` and a pair with
/// any other key set nothing; the key ends at the first `=`.
pub open spec fn with_pair(f: FormFields, pair: Seq<char>) -> FormFields {
    let e = find_from(pair, '=', 0);
    if e >= pair.len() {
        f
    } else {
        let key = pair.subrange(0, e);
        let raw = pair.subrange(e + 1, pair.len() as int);
        let value = field_value(raw, percent_decoded(raw));
        if key == "access_token"@ {
            FormFields { access_token: Some(value), ..f }
        } else if key == "scope"@ {
            FormFields { scope: Some(value), ..f }
        } else if key == "token_type"@ {
            FormFields { token_type: Some(value), ..f }
        } else {
            f
        }
    }
}

/// The fields of a form-encoded text read from position `i` on, where the
/// pair being read began at `start` and the pairs before it gave `f`. Pairs
/// are parted by `&`, and a later pair overrides an earlier one of its key.
pub open spec fn form_scan(text: Seq<char>, i: int, start: int, f: FormFields) -> FormFields
    decreases text.len() - i,
{
    if i >= text.len() {
        with_pair(f, text.subrange(start, text.len() as int))
    } else if text[i] == '&' {
        form_scan(text, i + 1, i + 1, with_pair(f, text.subrange(start, i)))
    } else {
        form_scan(text, i + 1, start, f)
    }
}

/// The fields of a whole form-encoded text.
pub open spec fn form_fields(text: Seq<char>) -> FormFields {
    form_scan(text, 0, 0, FormFields { access_token: None, token_type: None, scope: None })
}

/// Wherever the first `c` at or after `from` is found by search, `find_from`
/// names the same place.
pub proof fn lemma_find_from(s: Seq<char>, c: char, from: int, k: int)
    requires
        0 <= from <= k <= s.len(),
        forall|j: int| from <= j < k ==> s[j] != c,
        k == s.len() || s[k] == c,
    ensures
        find_from(s, c, from) == k,
    decreases k - from,
{
    if from < k {
        lemma_find_from(s, c, from + 1, k);
    }
}

/// Percent-decodes `data` with `urlencoding::decode`. The result is that
/// function's, named `percent_decoded`: `None` stands for its error, which it
/// gives where the decoded bytes are not UTF-8.
#[verifier::external_body]
fn percent_decode(data: &str) -> (r: Option<String>)
    ensures
        text_of(r) == percent_decoded(data@),
{
    match urlencoding::decode(data) {
        Ok(v) => Some(v.into_owned()),
        Err(_) => None,
    }
}

/// Whether two texts are the same.
pub fn same_text(a: &str, b: &str) -> (r: bool)
    ensures
        r == (a@ == b@),
{
    let x = a.to_owned();
    let y = b.to_owned();
    x == y
}

/// The provider with the given name, if it is a known one.
pub fn provider_named(name: &str) -> (r: Result<Provider, TokenError>)
    ensures
        match provider_of(name@) {
            Some(p) => r == Ok::<Provider, TokenError>(p),
            None => r == Err::<Provider, TokenError>(TokenError::UnsupportedProvider),
        },
{
    if same_text(name, "google") {
        Ok(Provider::Google)
    } else if same_text(name, "github") {
        Ok(Provider::Github)
    } else {
        Err(TokenError::UnsupportedProvider)
    }
}

impl Provider {
    /// The provider's token endpoint.
    pub open spec fn endpoint(self) -> Seq<char> {
        match self {
            Provider::Google => "https://oauth2.googleapis.com/token"@,
            Provider::Github => "https://github.com/login/oauth/access_token"@,
        }
    }

    /// Whether the provider takes the client's credentials as basic
    /// authentication; otherwise the secret travels as a form field.
    pub open spec fn wants_basic_auth(self) -> bool {
        self == Provider::Github
    }

    /// Whether the provider answers with a form-encoded body; otherwise it
    /// answers with JSON.
    pub open spec fn answers_with_form(self) -> bool {
        self == Provider::Github
    }

    pub fn token_url(&self) -> (r: &'static str)
        ensures
            r@ == self.endpoint(),
    {
        match self {
            Provider::Google => "https://oauth2.googleapis.com/token",
            Provider::Github => "https://github.com/login/oauth/access_token",
        }
    }

    pub fn uses_basic_auth(&self) -> (r: bool)
        ensures
            r == self.wants_basic_auth(),
    {
        match self {
            Provider::Google => false,
            Provider::Github => true,
        }
    }

    pub fn uses_form_response(&self) -> (r: bool)
        ensures
            r == self.answers_with_form(),
    {
        match self {
            Provider::Google => false,
            Provider::Github => true,
        }
    }
}

/// One field of the request's form.
#[derive(Debug)]
pub struct FormField {
    pub name: String,
    pub value: String,
}

/// Whether `fields[i]` is the field `name` with the value `value`.
pub open spec fn has_field(fields: Seq<FormField>, i: int, name: Seq<char>, value: Seq<char>) -> bool {
    0 <= i < fields.len() && fields[i].name@ == name && fields[i].value@ == value
}

fn field(name: &str, value: &str) -> (r: FormField)
    ensures
        r.name@ == name@,
        r.value@ == value@,
{
    FormField { name: name.to_owned(), value: value.to_owned() }
}

/// The form of a token request: the grant type, the code, the client and the
/// redirect address, and the client's secret for a provider that does not
/// take it as basic authentication.
pub fn request_form(
    provider: Provider,
    code: &str,
    client_id: &str,
    client_secret: &str,
    redirect_uri: &str,
) -> (r: Vec<FormField>)
    ensures
        has_field(r@, 0, "grant_type"@, "authorization_code"@),
        has_field(r@, 1, "code"@, code@),
        has_field(r@, 2, "client_id"@, client_id@),
        has_field(r@, 3, "redirect_uri"@, redirect_uri@),
        provider.wants_basic_auth() ==> r@.len() == 4,
        !provider.wants_basic_auth() ==> r@.len() == 5 && has_field(
            r@,
            4,
            "client_secret"@,
            client_secret@,
        ),
{
    let mut form: Vec<FormField> = Vec::new();
    form.push(field("grant_type", "authorization_code"));
    form.push(field("code", code));
    form.push(field("client_id", client_id));
    form.push(field("redirect_uri", redirect_uri));
    if !provider.uses_basic_auth() {
        form.push(field("client_secret", client_secret));
    }
    form
}

/// Whether an HTTP status counts as success.
pub open spec fn is_success(status: u16) -> bool {
    200 <= status < 300
}

pub fn status_is_success(status: u16) -> (r: bool)
    ensures
        r == is_success(status),
{
    200 <= status && status < 300
}

/// The value of a field, given what decoding its text gave.
pub fn value_or_raw(raw: &str, decoded: Option<String>) -> (r: String)
    ensures
        r@ == field_value(raw@, text_of(decoded)),
{
    match decoded {
        Some(v) => v,
        None => raw.to_owned(),
    }
}

/// The fields read so far from a form-encoded response.
pub struct FormReader {
    access_token: Option<String>,
    token_type: Option<String>,
    scope: Option<String>,
}

impl View for FormReader {
    type V = FormFields;

    closed spec fn view(&self) -> FormFields {
        FormFields {
            access_token: text_of(self.access_token),
            token_type: text_of(self.token_type),
            scope: text_of(self.scope),
        }
    }
}

impl FormReader {
    pub fn new() -> (r: FormReader)
        ensures
            r@ == (FormFields { access_token: None, token_type: None, scope: None }),
    {
        FormReader { access_token: None, token_type: None, scope: None }
    }

    /// Reads one pair.
    pub fn read_pair(&mut self, pair: &str)
        ensures
            final(self)@ == with_pair(old(self)@, pair@),
    {
        let n = pair.unicode_len();
        let mut e: usize = 0;
        while e < n && pair.get_char(e) != '='
            invariant
                e <= n,
                n == pair@.len(),
                forall|j: int| 0 <= j < e ==> pair@[j] != '=',
            decreases n - e,
        {
            e += 1;
        }
        proof {
            lemma_find_from(pair@, '=', 0, e as int);
        }
        if e < n {
            let key = pair.substring_char(0, e);
            let raw = pair.substring_char(e + 1, n);
            let value = value_or_raw(raw, percent_decode(raw));
            if same_text(key, "access_token") {
                self.access_token = Some(value);
            } else if same_text(key, "scope") {
                self.scope = Some(value);
            } else if same_text(key, "token_type") {
                self.token_type = Some(value);
            }
        }
    }

    /// The response that the fields make: the access token is needed, and a
    /// form-encoded response carries neither a lifetime nor a refresh token.
    pub fn finish(self) -> (r: Result<TokenResponse, TokenError>)
        ensures
            response_matches(r, self@),
    {
        match self.access_token {
            Some(access_token) => Ok(
                TokenResponse {
                    access_token,
                    token_type: self.token_type,
                    expires_in: None,
                    refresh_token: None,
                    scope: self.scope,
                },
            ),
            None => Err(TokenError::MissingAccessToken),
        }
    }
}

/// Whether `r` is the response that the fields `f` make.
pub open spec fn response_matches(r: Result<TokenResponse, TokenError>, f: FormFields) -> bool {
    match f.access_token {
        Some(token) => r is Ok && r->Ok_0.access_token@ == token && text_of(r->Ok_0.token_type)
            == f.token_type && text_of(r->Ok_0.scope) == f.scope && r->Ok_0.expires_in.is_none()
            && r->Ok_0.refresh_token.is_none(),
        None => r == Err::<TokenResponse, TokenError>(TokenError::MissingAccessToken),
    }
}

/// Reads a form-encoded token response.
pub fn parse_form_response(text: &str) -> (r: Result<TokenResponse, TokenError>)
    ensures
        response_matches(r, form_fields(text@)),
{
    let n = text.unicode_len();
    let mut reader = FormReader::new();
    let mut start: usize = 0;
    let mut i: usize = 0;
    while i < n
        invariant
            start <= i <= n,
            n == text@.len(),
            form_fields(text@) == form_scan(text@, i as int, start as int, reader@),
        decreases n - i,
    {
        if text.get_char(i) == '&' {
            reader.read_pair(text.substring_char(start, i));
            start = i + 1;
        }
        i += 1;
    }
    reader.read_pair(text.substring_char(start, n));
    reader.finish()
}

} // verus!
