//! Rejection of the options that a request may name but that are not
//! implemented.

use crate::error::{HttpError, UnsupportedField};
use crate::request::Request;
use vstd::prelude::*;

verus! {

/// The unimplemented options, in the order in which they are checked.
pub open spec fn checked_fields() -> Seq<UnsupportedField> {
    seq![
        UnsupportedField::RaiseError,
        UnsupportedField::TlsCaCert,
        UnsupportedField::TlsClientKey,
        UnsupportedField::TlsServerName,
        UnsupportedField::TlsUseSystemCert,
        UnsupportedField::TlsCaCertFile,
        UnsupportedField::TlsClientKeyFile,
        UnsupportedField::TlsCaCertEnvVariable,
        UnsupportedField::TlsClientKeyEnvVariable,
        UnsupportedField::TlsInsecureSkipVerify,
        UnsupportedField::CachingMode,
        UnsupportedField::ForceCacheDurationSeconds,
    ]
}

/// Whether the request names the option, whatever value it gives it.
pub open spec fn is_set(data: Request, field: UnsupportedField) -> bool {
    match field {
        UnsupportedField::RaiseError => data.raise_error is Some,
        UnsupportedField::TlsCaCert => data.tls_ca_cert is Some,
        UnsupportedField::TlsClientKey => data.tls_client_key is Some,
        UnsupportedField::TlsServerName => data.tls_server_name is Some,
        UnsupportedField::TlsUseSystemCert => data.tls_use_system_cert is Some,
        UnsupportedField::TlsCaCertFile => data.tls_ca_cert_file is Some,
        UnsupportedField::TlsClientKeyFile => data.tls_client_key_file is Some,
        UnsupportedField::TlsCaCertEnvVariable => data.tls_ca_cert_env_variable is Some,
        UnsupportedField::TlsClientKeyEnvVariable => data.tls_client_key_env_variable is Some,
        UnsupportedField::TlsInsecureSkipVerify => data.tls_insecure_skip_verify is Some,
        UnsupportedField::CachingMode => data.caching_mode is Some,
        UnsupportedField::ForceCacheDurationSeconds => data.force_cache_duration_seconds is Some,
    }
}

/// The first of `fields` that the request names.
pub open spec fn first_set(data: Request, fields: Seq<UnsupportedField>) -> Option<
    UnsupportedField,
>
    decreases fields.len(),
{
    if fields.len() == 0 {
        None
    } else if is_set(data, fields[0]) {
        Some(fields[0])
    } else {
        first_set(data, fields.drop_first())
    }
}

/// The unimplemented option that a request is rejected for, if it names any.
pub open spec fn first_unsupported(data: Request) -> Option<UnsupportedField> {
    first_set(data, checked_fields())
}

/// Whether the request names any unimplemented option.
pub open spec fn has_unsupported(data: Request) -> bool {
    exists|field: UnsupportedField| is_set(data, field)
}

/// `first_set` finds the least position of `fields` whose option is named,
/// and finds none only where none is named.
pub proof fn lemma_first_set(data: Request, fields: Seq<UnsupportedField>)
    ensures
        match first_set(data, fields) {
            Some(f) => exists|i: int|
                0 <= i < fields.len() && fields[i] == f && is_set(data, f) && forall|j: int|
                    0 <= j < i ==> !is_set(data, #[trigger] fields[j]),
            None => forall|j: int| 0 <= j < fields.len() ==> !is_set(data, #[trigger] fields[j]),
        },
    decreases fields.len(),
{
    if fields.len() == 0 {
    } else if is_set(data, fields[0]) {
        assert(forall|j: int| 0 <= j < 0 ==> !is_set(data, #[trigger] fields[j]));
    } else {
        let rest = fields.drop_first();
        lemma_first_set(data, rest);
        assert(forall|j: int| 0 <= j < rest.len() ==> rest[j] == fields[j + 1]);
        match first_set(data, rest) {
            Some(f) => {
                let i = choose|i: int|
                    0 <= i < rest.len() && rest[i] == f && is_set(data, f) && forall|j: int|
                        0 <= j < i ==> !is_set(data, #[trigger] rest[j]);
                assert forall|j: int| 0 <= j < i + 1 implies !is_set(
                    data,
                    #[trigger] fields[j],
                ) by {
                    if j > 0 {
                        assert(rest[j - 1] == fields[j]);
                    }
                }
                assert(fields[i + 1] == f);
            },
            None => {
                assert forall|j: int| 0 <= j < fields.len() implies !is_set(
                    data,
                    #[trigger] fields[j],
                ) by {
                    if j > 0 {
                        assert(rest[j - 1] == fields[j]);
                    }
                }
            },
        }
    }
}

/// Every unimplemented option is among the checked ones.
pub proof fn lemma_every_field_checked(field: UnsupportedField)
    ensures
        exists|i: int| 0 <= i < checked_fields().len() && checked_fields()[i] == field,
{
    let fields = checked_fields();
    match field {
        UnsupportedField::RaiseError => assert(fields[0] == field),
        UnsupportedField::TlsCaCert => assert(fields[1] == field),
        UnsupportedField::TlsClientKey => assert(fields[2] == field),
        UnsupportedField::TlsServerName => assert(fields[3] == field),
        UnsupportedField::TlsUseSystemCert => assert(fields[4] == field),
        UnsupportedField::TlsCaCertFile => assert(fields[5] == field),
        UnsupportedField::TlsClientKeyFile => assert(fields[6] == field),
        UnsupportedField::TlsCaCertEnvVariable => assert(fields[7] == field),
        UnsupportedField::TlsClientKeyEnvVariable => assert(fields[8] == field),
        UnsupportedField::TlsInsecureSkipVerify => assert(fields[9] == field),
        UnsupportedField::CachingMode => assert(fields[10] == field),
        UnsupportedField::ForceCacheDurationSeconds => assert(fields[11] == field),
    }
}

/// A request is rejected exactly when it names an unimplemented option, and
/// then for one that it names.
pub proof fn lemma_rejected_iff_unsupported(data: Request)
    ensures
        first_unsupported(data) is Some <==> has_unsupported(data),
        first_unsupported(data) matches Some(f) ==> is_set(data, f),
{
    lemma_first_set(data, checked_fields());
    if has_unsupported(data) {
        let field = choose|field: UnsupportedField| is_set(data, field);
        lemma_every_field_checked(field);
        let i = choose|i: int| 0 <= i < checked_fields().len() && checked_fields()[i] == field;
        assert(is_set(data, checked_fields()[i]));
    }
}

/// Whether the request names the option.
fn field_present(data: &Request, field: UnsupportedField) -> (r: bool)
    ensures
        r == is_set(*data, field),
{
    match field {
        UnsupportedField::RaiseError => data.raise_error.is_some(),
        UnsupportedField::TlsCaCert => data.tls_ca_cert.is_some(),
        UnsupportedField::TlsClientKey => data.tls_client_key.is_some(),
        UnsupportedField::TlsServerName => data.tls_server_name.is_some(),
        UnsupportedField::TlsUseSystemCert => data.tls_use_system_cert.is_some(),
        UnsupportedField::TlsCaCertFile => data.tls_ca_cert_file.is_some(),
        UnsupportedField::TlsClientKeyFile => data.tls_client_key_file.is_some(),
        UnsupportedField::TlsCaCertEnvVariable => data.tls_ca_cert_env_variable.is_some(),
        UnsupportedField::TlsClientKeyEnvVariable => data.tls_client_key_env_variable.is_some(),
        UnsupportedField::TlsInsecureSkipVerify => data.tls_insecure_skip_verify.is_some(),
        UnsupportedField::CachingMode => data.caching_mode.is_some(),
        UnsupportedField::ForceCacheDurationSeconds => data.force_cache_duration_seconds.is_some(),
    }
}

/// The unimplemented options in checking order.
fn fields_in_order() -> (r: Vec<UnsupportedField>)
    ensures
        r@ == checked_fields(),
{
    let r = vec![
        UnsupportedField::RaiseError,
        UnsupportedField::TlsCaCert,
        UnsupportedField::TlsClientKey,
        UnsupportedField::TlsServerName,
        UnsupportedField::TlsUseSystemCert,
        UnsupportedField::TlsCaCertFile,
        UnsupportedField::TlsClientKeyFile,
        UnsupportedField::TlsCaCertEnvVariable,
        UnsupportedField::TlsClientKeyEnvVariable,
        UnsupportedField::TlsInsecureSkipVerify,
        UnsupportedField::CachingMode,
        UnsupportedField::ForceCacheDurationSeconds,
    ];
    assert(r@ =~= checked_fields());
    r
}

/// Rejects a request that names an unimplemented option, for the first such
/// option in checking order. Touches nothing but the request.
pub fn unimplemented_option(data: &Request) -> (r: Result<(), HttpError>)
    ensures
        r == match first_unsupported(*data) {
            Some(field) => Err::<(), HttpError>(HttpError::UnsupportedOption(field)),
            None => Ok(()),
        },
{
    let fields = fields_in_order();
    let mut i: usize = 0;
    assert(fields@.skip(0) =~= fields@);
    while i < fields.len()
        invariant
            i <= fields.len(),
            fields@ == checked_fields(),
            first_unsupported(*data) == first_set(*data, fields@.skip(i as int)),
        decreases fields.len() - i,
    {
        let field = fields[i];
        let ghost rest = fields@.skip(i as int);
        assert(rest[0] == field);
        assert(rest.drop_first() =~= fields@.skip(i + 1));
        if field_present(data, field) {
            return Err(HttpError::UnsupportedOption(field));
        }
        i = i + 1;
    }
    assert(fields@.skip(i as int).len() == 0);
    Ok(())
}

} // verus!
