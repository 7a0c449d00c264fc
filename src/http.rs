//! The create-user endpoint: parsing of the request body, the handler, and
//! the mapping of outcomes to response bodies and status codes.
use vstd::prelude::*;

use crate::ids::{uuid_string, uuid_text};
use crate::email::email_rejection_text;
use crate::ports::CrowdSrcService;
use crate::text::{has_white_space, trim};
use crate::user::{
    outcome_view, parsed_email, valid_user_name, CreateUserError, CreateUserErrorView,
    CreateUserRequest, EmailAddress, EmailAddressError, User, UserName, UserNameError, UserRecord,
};

verus! {

/// The HTTP status code of a created resource.
pub const STATUS_CREATED: u16 = 201;

/// The HTTP status code of an unprocessable request.
pub const STATUS_UNPROCESSABLE_ENTITY: u16 = 422;

/// The HTTP status code of a server-side failure.
pub const STATUS_INTERNAL_SERVER_ERROR: u16 = 500;

/// Where the HTTP server listens.
pub struct HttpServerConfig<'a> {
    pub port: &'a str,
}

/// The body of a user creation request, as received.
#[derive(Debug, Clone, PartialEq, Eq)]
pub struct CreateUserHttpRequestBody {
    pub username: String,
    pub email_address: String,
}

/// Why a request body does not describe a user.
#[derive(Debug, Clone, PartialEq, Eq)]
pub enum ParseCreateUserHttpRequestError {
    Name(UserNameError),
    EmailAddress(EmailAddressError),
}

impl CreateUserHttpRequestBody {
    /// Validates the user name, then the email address.
    pub fn try_into_domain(self) -> (r: Result<CreateUserRequest, ParseCreateUserHttpRequestError>)
        ensures
            r matches Err(ParseCreateUserHttpRequestError::Name(UserNameError::Empty)) <==> trim(
                self.username@,
            ).len() == 0,
            r matches Err(ParseCreateUserHttpRequestError::Name(UserNameError::WithWhitespace { .. }))
                <==> trim(self.username@).len() > 0 && has_white_space(trim(self.username@)),
            r matches Err(
                ParseCreateUserHttpRequestError::Name(
                    UserNameError::WithWhitespace { invalid_username },
                ),
            ) ==> invalid_username@ == self.username@,
            r matches Err(ParseCreateUserHttpRequestError::EmailAddress(e)) <==> trim(
                self.username@,
            ).len() > 0 && !has_white_space(trim(self.username@)) && parsed_email(
                self.email_address@,
            ) is None,
            r matches Err(ParseCreateUserHttpRequestError::EmailAddress(e)) ==> e.invalid_email@
                == self.email_address@ && e.message@ == email_rejection_text(self.email_address@)
                && e.message@.len() > 0,
            r matches Ok(req) ==> req.name@ == trim(self.username@) && Some(req.email@)
                == parsed_email(self.email_address@),
    {
        let name = match UserName::new(self.username.as_str()) {
            Ok(n) => n,
            Err(e) => {
                return Err(ParseCreateUserHttpRequestError::Name(e));
            },
        };
        let email = match EmailAddress::new(self.email_address.as_str()) {
            Ok(a) => a,
            Err(e) => {
                return Err(ParseCreateUserHttpRequestError::EmailAddress(e));
            },
        };
        Ok(CreateUserRequest::new(name, email))
    }
}

/// The data of a successful creation: the new user's identifier.
#[derive(Debug, Clone, PartialEq, Eq)]
pub struct CreateUserResponseData {
    pub id: String,
}

impl CreateUserResponseData {
    /// The identifier of `user` in its canonical text form.
    pub fn from(user: &User) -> (r: CreateUserResponseData)
        ensures
            r.id@ == uuid_text(user.id),
            r.id@.len() == 36,
    {
        CreateUserResponseData { id: uuid_string(user.id) }
    }
}

/// The data of an error response.
#[derive(Debug, Clone, PartialEq, Eq)]
pub struct ApiErrorData {
    pub message: String,
}

/// The body shared by all responses: the status code and the data.
#[derive(Debug, Clone, PartialEq, Eq)]
pub struct ApiResponseBody<T> {
    pub status_code: u16,
    pub data: T,
}

impl<T> ApiResponseBody<T> {
    pub fn new(status_code: u16, data: T) -> (r: ApiResponseBody<T>)
        ensures
            r.status_code == status_code,
            r.data == data,
    {
        ApiResponseBody { status_code, data }
    }
}

impl ApiResponseBody<ApiErrorData> {
    pub fn new_error(status_code: u16, message: String) -> (r: ApiResponseBody<ApiErrorData>)
        ensures
            r.status_code == status_code,
            r.data.message == message,
    {
        ApiResponseBody { status_code, data: ApiErrorData { message } }
    }
}

/// A successful response: its status code and body.
#[derive(Debug, Clone, PartialEq, Eq)]
pub struct ApiSuccess<T> {
    pub status: u16,
    pub body: ApiResponseBody<T>,
}

impl<T> ApiSuccess<T> {
    pub fn new(status: u16, data: T) -> (r: ApiSuccess<T>)
        ensures
            r.status == status,
            r.body.status_code == status,
            r.body.data == data,
    {
        ApiSuccess { status, body: ApiResponseBody::new(status, data) }
    }
}

/// An error response, before it is rendered.
#[derive(Debug, Clone, PartialEq, Eq)]
pub enum ApiError {
    InternalServerError(String),
    UnprocessableEntity(String),
}

/// The message of the response to a request body that failed to parse.
pub open spec fn parse_error_message(e: ParseCreateUserHttpRequestError) -> Seq<char> {
    match e {
        ParseCreateUserHttpRequestError::Name(UserNameError::Empty) => "username can't be empty"@,
        ParseCreateUserHttpRequestError::Name(
            UserNameError::WithWhitespace { invalid_username },
        ) => "username '"@ + invalid_username@ + "' is not valid"@,
        ParseCreateUserHttpRequestError::EmailAddress(cause) => "email address "@
            + cause.invalid_email@ + " is invalid"@,
    }
}

/// `a` is the response to the creation error `e`: a conflict is unprocessable
/// and names the value (the email address quoted, the user name not); any
/// other failure is an internal error whose message reveals nothing.
pub open spec fn api_error_for(e: CreateUserErrorView, a: ApiError) -> bool {
    match e {
        CreateUserErrorView::DuplicateUserName(username) => a matches ApiError::UnprocessableEntity(
            m,
        ) && m@ == "user with username "@ + username + " already exists"@,
        CreateUserErrorView::DuplicateEmail(email) => a matches ApiError::UnprocessableEntity(m)
            && m@ == "user with email '"@ + email + "' already exists"@,
        CreateUserErrorView::Unknown(_) => a matches ApiError::InternalServerError(m) && m@
            == "Internal server error"@,
    }
}

/// `r` is the response to the creation outcome `outcome`: the new user's
/// identifier with status 201, or the error's response.
pub open spec fn response_for(
    outcome: Result<UserRecord, CreateUserErrorView>,
    r: Result<ApiSuccess<CreateUserResponseData>, ApiError>,
) -> bool {
    match outcome {
        Ok(u) => r matches Ok(s) && s.status == STATUS_CREATED && s.body.status_code
            == STATUS_CREATED && s.body.data.id@ == uuid_text(u.id) && s.body.data.id@.len() == 36,
        Err(e) => r matches Err(a) && api_error_for(e, a),
    }
}

impl ApiError {
    /// The response to a request body that failed to parse.
    pub fn from_parse_error(e: ParseCreateUserHttpRequestError) -> (r: ApiError)
        ensures
            r matches ApiError::UnprocessableEntity(m) && m@ == parse_error_message(e),
    {
        let message = match e {
            ParseCreateUserHttpRequestError::Name(UserNameError::Empty) => String::from_str(
                "username can't be empty",
            ),
            ParseCreateUserHttpRequestError::Name(
                UserNameError::WithWhitespace { invalid_username },
            ) => String::from_str("username '").concat(invalid_username.as_str()).concat(
                "' is not valid",
            ),
            ParseCreateUserHttpRequestError::EmailAddress(cause) => String::from_str(
                "email address ",
            ).concat(cause.invalid_email.as_str()).concat(" is invalid"),
        };
        ApiError::UnprocessableEntity(message)
    }

    /// The response to a failed creation.
    pub fn from_create_error(e: CreateUserError) -> (r: ApiError)
        ensures
            api_error_for(e@, r),
    {
        match e {
            CreateUserError::DuplicateUserName { username } => ApiError::UnprocessableEntity(
                String::from_str("user with username ").concat(username.as_str()).concat(
                    " already exists",
                ),
            ),
            CreateUserError::DuplicateEmail { email } => ApiError::UnprocessableEntity(
                String::from_str("user with email '").concat(email.as_str()).concat(
                    "' already exists",
                ),
            ),
            CreateUserError::Unknown(_) => ApiError::InternalServerError(
                String::from_str("Internal server error"),
            ),
        }
    }

    /// The status code and body sent for this error. An internal error's own
    /// message is never sent.
    pub fn into_body(self) -> (r: ApiResponseBody<ApiErrorData>)
        ensures
            self matches ApiError::InternalServerError(_) ==> r.status_code
                == STATUS_INTERNAL_SERVER_ERROR && r.data.message@ == "Internal server error"@,
            self matches ApiError::UnprocessableEntity(m) ==> r.status_code
                == STATUS_UNPROCESSABLE_ENTITY && r.data.message == m,
    {
        match self {
            ApiError::InternalServerError(_) => ApiResponseBody::new_error(
                STATUS_INTERNAL_SERVER_ERROR,
                String::from_str("Internal server error"),
            ),
            ApiError::UnprocessableEntity(message) => ApiResponseBody::new_error(
                STATUS_UNPROCESSABLE_ENTITY,
                message,
            ),
        }
    }
}

/// The response to the service's result: the new user's identifier with
/// status 201, or the error's response.
pub fn create_user_response(result: Result<User, CreateUserError>) -> (r: Result<
    ApiSuccess<CreateUserResponseData>,
    ApiError,
>)
    ensures
        response_for(outcome_view(result), r),
{
    match result {
        Ok(user) => Ok(ApiSuccess::new(STATUS_CREATED, CreateUserResponseData::from(&user))),
        Err(e) => Err(ApiError::from_create_error(e)),
    }
}

/// Handles a user creation request: a body that does not parse is answered
/// without calling the service; otherwise the service's result is answered.
pub fn create_user<CS: CrowdSrcService>(service: &mut CS, body: CreateUserHttpRequestBody) -> (r:
    Result<ApiSuccess<CreateUserResponseData>, ApiError>)
    ensures
        trim(body.username@).len() == 0 ==> (r matches Err(ApiError::UnprocessableEntity(m))
            && m@ == "username can't be empty"@ && *final(service) == *old(service)),
        trim(body.username@).len() > 0 && has_white_space(trim(body.username@)) ==> (r matches Err(
            ApiError::UnprocessableEntity(m),
        ) && m@ == "username '"@ + body.username@ + "' is not valid"@ && *final(service)
            == *old(service)),
        trim(body.username@).len() > 0 && !has_white_space(trim(body.username@)) && parsed_email(
            body.email_address@,
        ) is None ==> (r matches Err(ApiError::UnprocessableEntity(m)) && m@ == "email address "@
            + body.email_address@ + " is invalid"@ && *final(service) == *old(service)),
        r matches Ok(s) ==> s.status == STATUS_CREATED && s.body.status_code == STATUS_CREATED
            && s.body.data.id@.len() == 36,
        r matches Err(ApiError::InternalServerError(m)) ==> m@ == "Internal server error"@,
        valid_user_name(trim(body.username@)) && parsed_email(body.email_address@) is Some ==> ({
            let answers = final(service).answers();
            &&& answers.len() == old(service).answers().len() + 1
            &&& answers.drop_last() == old(service).answers()
            &&& answers.last().name == trim(body.username@)
            &&& answers.last().email == body.email_address@
            &&& response_for(answers.last().outcome, r)
        }),
{
    let req = match body.try_into_domain() {
        Ok(req) => req,
        Err(e) => {
            return Err(ApiError::from_parse_error(e));
        },
    };
    let result = service.create_user(&req);
    proof {
        assert(final(service).answers().drop_last() =~= old(service).answers());
    }
    create_user_response(result)
}

} // verus!
