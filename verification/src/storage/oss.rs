use crate::storage::config::OssConfig;
use crate::text::{
    contains, contains_text, joined, strip_leading_char, strip_trailing_char,
    without_leading_char, without_trailing_char,
};
use vstd::prelude::*;

verus! {

/// Why a storage operation failed.
#[derive(Debug)]
pub enum Error {
    FileTooLarge,
    UnsupportedMime,
    // The store's operations
    UploadError(String),
    DeleteError(String),
    ListError(String),
    PresignError(String),
}

pub type Result<T> = core::result::Result<T, Error>;

/// The mathematical value of an `Error`.
pub enum ErrorView {
    FileTooLarge,
    UnsupportedMime,
    UploadError(Seq<char>),
    DeleteError(Seq<char>),
    ListError(Seq<char>),
    PresignError(Seq<char>),
}

impl View for Error {
    type V = ErrorView;

    open spec fn view(&self) -> ErrorView {
        match self {
            Error::FileTooLarge => ErrorView::FileTooLarge,
            Error::UnsupportedMime => ErrorView::UnsupportedMime,
            Error::UploadError(detail) => ErrorView::UploadError(detail@),
            Error::DeleteError(detail) => ErrorView::DeleteError(detail@),
            Error::ListError(detail) => ErrorView::ListError(detail@),
            Error::PresignError(detail) => ErrorView::PresignError(detail@),
        }
    }
}

/// The bucket that objects are kept in and the address under which the
/// public reads them.
#[derive(Debug)]
pub struct OssClient {
    bucket_name: String,
    public_base: String,
}

/// The public address of an object: the base without its trailing
/// slashes, one slash, the name without its leading slashes.
pub open spec fn public_url_of(public_base: Seq<char>, filename: Seq<char>) -> Seq<char> {
    without_trailing_char(public_base, '/') + seq!['/'] + without_leading_char(filename, '/')
}

/// The report of an operation of the store that failed: the operation's
/// name, a colon and a blank, the store's own words.
pub open spec fn failure_report(operation: Seq<char>, detail: Seq<char>) -> Seq<char> {
    operation + ": "@ + detail
}

/// What the answer to a request for an object's head says of the object:
/// it is there where the request succeeded; it is not where the store's
/// words name a missing key or the status 404; any other failure is a
/// failure of the request.
pub open spec fn exists_of(head: core::result::Result<(), Seq<char>>) -> core::result::Result<
    bool,
    ErrorView,
> {
    match head {
        Ok(_) => Ok(true),
        Err(msg) => if contains_text(msg, "NoSuchKey"@) || contains_text(msg, "404"@) {
            Ok(false)
        } else {
            Err(ErrorView::UploadError(failure_report("head_object"@, msg)))
        },
    }
}

impl OssClient {
    /// The bucket's name.
    pub closed spec fn spec_bucket_name(&self) -> Seq<char> {
        self.bucket_name@
    }

    /// The address under which the public reads the bucket.
    pub closed spec fn spec_public_base(&self) -> Seq<char> {
        self.public_base@
    }

    /// The client for the configured bucket.
    pub fn new(config: &OssConfig) -> (client: OssClient)
        ensures
            client.spec_bucket_name() == config.OSS_BUCKET_NAME@,
            client.spec_public_base() == config.OSS_PUBLIC_BASE@,
    {
        OssClient {
            bucket_name: config.OSS_BUCKET_NAME.clone(),
            public_base: config.OSS_PUBLIC_BASE.clone(),
        }
    }

    /// The bucket's name.
    pub fn bucket_name(&self) -> (name: &str)
        ensures
            name@ == self.spec_bucket_name(),
    {
        self.bucket_name.as_str()
    }

    /// The public address of the object `filename`.
    pub fn public_url(&self, filename: &str) -> (url: String)
        ensures
            url@ == public_url_of(self.spec_public_base(), filename@),
    {
        let base = strip_trailing_char(self.public_base.as_str(), '/');
        let name = strip_leading_char(filename, '/');
        let mut url = joined(base.as_str(), "/");
        proof {
            reveal_strlit("/");
            assert("/"@ =~= seq!['/']);
        }
        url.append(name.as_str());
        url
    }

    /// The failure of one of the store's operations, with its report.
    pub fn failure(operation: &str, detail: &str) -> (e: Error)
        ensures
            e@ == ErrorView::UploadError(failure_report(operation@, detail@)),
    {
        let mut report = joined(operation, ": ");
        report.append(detail);
        Error::UploadError(report)
    }

    /// What an upload returns once the object is written and made public,
    /// given how the two operations of the store ended: the failure of the
    /// first that failed, else the object's public address.
    pub fn upload(
        &self,
        filename: &str,
        put: core::result::Result<(), String>,
        acl: core::result::Result<(), String>,
    ) -> (r: Result<String>)
        ensures
            match r {
                Ok(url) => put is Ok && acl is Ok && url@ == public_url_of(
                    self.spec_public_base(),
                    filename@,
                ),
                Err(e) => match put {
                    Err(detail) => e@ == ErrorView::UploadError(
                        failure_report("put_object_from_buffer"@, detail@),
                    ),
                    Ok(_) => acl matches Err(detail) && e@ == ErrorView::UploadError(
                        failure_report("put_object_acl"@, detail@),
                    ),
                },
            },
    {
        if let Err(detail) = put {
            return Err(OssClient::failure("put_object_from_buffer", detail.as_str()));
        }
        if let Err(detail) = acl {
            return Err(OssClient::failure("put_object_acl", detail.as_str()));
        }
        Ok(self.public_url(filename))
    }

    /// Whether an object is there, given the answer to a request for its
    /// head.
    pub fn object_exists(head: core::result::Result<(), String>) -> (r: Result<bool>)
        ensures
            match r {
                Ok(there) => exists_of(
                    match head {
                        Ok(_) => Ok(()),
                        Err(msg) => Err(msg@),
                    },
                ) == Ok::<bool, ErrorView>(there),
                Err(e) => exists_of(
                    match head {
                        Ok(_) => Ok(()),
                        Err(msg) => Err(msg@),
                    },
                ) == Err::<bool, ErrorView>(e@),
            },
    {
        match head {
            Ok(_) => Ok(true),
            Err(msg) => {
                if contains(msg.as_str(), "NoSuchKey") || contains(msg.as_str(), "404") {
                    Ok(false)
                } else {
                    Err(OssClient::failure("head_object", msg.as_str()))
                }
            },
        }
    }
}

} // verus!
