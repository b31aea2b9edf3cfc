use vstd::prelude::*;

verus! {

/// `utoipa::openapi::OpenApi`: the description of the HTTP interface as
/// an OpenAPI document.
#[verifier::external_type_specification]
#[verifier::external_body]
pub struct ExOpenApi(utoipa::openapi::OpenApi);

/// Whether the document has a components section.
pub uninterp spec fn has_components(document: utoipa::openapi::OpenApi) -> bool;

/// The HTTP bearer schemes among the security schemes of the document's
/// components: for the name of each the format of its tokens and its
/// description. A document without components has none.
pub uninterp spec fn bearer_schemes(document: utoipa::openapi::OpenApi) -> Map<
    Seq<char>,
    (Seq<char>, Seq<char>),
>;

/// Reads the field `components` of the document: whether it is there.
#[verifier::external_body]
fn components_present(document: &utoipa::openapi::OpenApi) -> (present: bool)
    ensures
        present == has_components(*document),
{
    document.components.is_some()
}

/// The document that entering a bearer scheme makes of a `document` with
/// components: the same document, but that under `name` its components
/// hold the HTTP scheme of kind bearer with that token format and
/// description and nothing else set. Of a document without components
/// nothing is said.
pub uninterp spec fn with_bearer_scheme(
    document: utoipa::openapi::OpenApi,
    name: Seq<char>,
    format: Seq<char>,
    description: Seq<char>,
) -> utoipa::openapi::OpenApi;

/// The document without the security scheme that its components hold
/// under `name`: all of its other parts, and every other scheme of its
/// components, as they are. A document that holds no scheme under `name`
/// is itself that.
pub uninterp spec fn without_scheme(
    document: utoipa::openapi::OpenApi,
    name: Seq<char>,
) -> utoipa::openapi::OpenApi;

/// `Components::add_security_scheme` on the document's components, with
/// an HTTP scheme that `HttpBuilder` makes: the scheme is entered under
/// `name`, in place of any that stood there, as a bearer scheme with that
/// format and description. The call is an insertion into a map: what it
/// makes is a function of the document and the three texts, nothing but
/// the entry under `name` changes, and entering the same scheme once
/// more changes nothing.
#[verifier::external_body]
fn enter_bearer_scheme(
    document: &mut utoipa::openapi::OpenApi,
    name: &str,
    format: &str,
    description: &str,
)
    requires
        has_components(*old(document)),
    ensures
        *final(document) == with_bearer_scheme(*old(document), name@, format@, description@),
        with_bearer_scheme(*final(document), name@, format@, description@) == *final(document),
        without_scheme(*final(document), name@) == without_scheme(*old(document), name@),
        has_components(*final(document)),
        bearer_schemes(*final(document)) == bearer_schemes(*old(document)).insert(
            name@,
            (format@, description@),
        ),
{
    let scheme = utoipa::openapi::security::HttpBuilder::new()
        .scheme(utoipa::openapi::security::HttpAuthScheme::Bearer)
        .bearer_format(format)
        .description(Some(description))
        .build();
    document.components.as_mut().unwrap().add_security_scheme(
        name,
        utoipa::openapi::security::SecurityScheme::Http(scheme),
    );
}

/// The name under which the endpoints refer to the bearer scheme.
pub const BEARER_AUTH: &'static str = "bearer_auth";

/// The format of the tokens, as a hint to the reader of the document.
pub const BEARER_FORMAT: &'static str = "JWT";

/// What the document tells a reader to present as the token.
pub const BEARER_DESCRIPTION: &'static str =
    "ログインAPIで取得したアクセストークンを入力してください";

/// Adds to a generated document the security scheme that the endpoints
/// refer to.
pub struct SecurityAddon;

impl SecurityAddon {
    /// What `modify` makes of a document: with components, the document
    /// with the bearer scheme entered under [`BEARER_AUTH`]; without, the
    /// document itself.
    pub open spec fn modified(document: utoipa::openapi::OpenApi) -> utoipa::openapi::OpenApi {
        if has_components(document) {
            with_bearer_scheme(document, BEARER_AUTH@, BEARER_FORMAT@, BEARER_DESCRIPTION@)
        } else {
            document
        }
    }

    /// Enters the bearer scheme into the components of the document. A
    /// document without components stays as it is. In a document with
    /// components nothing changes but the scheme under [`BEARER_AUTH`],
    /// which becomes the bearer scheme, and whether there are components
    /// does not change either. A second call changes nothing.
    pub fn modify(&self, openapi: &mut utoipa::openapi::OpenApi)
        ensures
            *final(openapi) == SecurityAddon::modified(*old(openapi)),
            SecurityAddon::modified(*final(openapi)) == *final(openapi),
            without_scheme(*final(openapi), BEARER_AUTH@) == without_scheme(
                *old(openapi),
                BEARER_AUTH@,
            ),
            has_components(*final(openapi)) == has_components(*old(openapi)),
            has_components(*old(openapi)) ==> bearer_schemes(*final(openapi)) == bearer_schemes(
                *old(openapi),
            ).insert(BEARER_AUTH@, (BEARER_FORMAT@, BEARER_DESCRIPTION@)),
            !has_components(*old(openapi)) ==> *final(openapi) == *old(openapi),
    {
        if components_present(openapi) {
            enter_bearer_scheme(openapi, BEARER_AUTH, BEARER_FORMAT, BEARER_DESCRIPTION);
        }
    }
}

} // verus!
