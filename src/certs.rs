//! Choice of the TLS material for one encrypted transport. The key and the
//! certificate chain are chosen independently: a custom file where one is
//! configured (and then its failure is the transport's failure), else the
//! built-in default.
use vstd::prelude::*;

verus! {

/// Where one half of the TLS material comes from.
#[derive(Clone, Debug, PartialEq, Eq)]
pub enum MaterialSource {
    /// The built-in default.
    Default,
    /// The file at this path, relative to the working directory.
    Custom(String),
}

/// The material that `loaded` stands for: what was loaded from the custom
/// file if one was configured, else `default`.
pub open spec fn chosen<T>(loaded: Option<Result<T, std::io::Error>>, default: T) -> T {
    match loaded {
        Some(Ok(v)) => v,
        _ => default,
    }
}

/// Whether loading a configured custom file failed.
pub open spec fn load_failed<T>(loaded: Option<Result<T, std::io::Error>>) -> bool {
    match loaded {
        Some(Err(_)) => true,
        _ => false,
    }
}

/// Where the material comes from, given the configured custom path.
pub fn material_source(custom: &Option<String>) -> (r: MaterialSource)
    ensures
        custom is None ==> r == MaterialSource::Default,
        custom is Some ==> r == MaterialSource::Custom(custom->0),
{
    match custom {
        Some(path) => MaterialSource::Custom(path.clone()),
        None => MaterialSource::Default,
    }
}

/// Combines the outcome of loading the custom key and certificate chain
/// (`None` where none is configured) with the defaults. A failed custom key
/// fails the whole resolution, checked first; then a failed custom chain.
/// Otherwise each half is the custom one where configured, else the default.
pub fn resolve_material<C, K>(
    key: Option<Result<K, std::io::Error>>,
    cert: Option<Result<C, std::io::Error>>,
    default_key: K,
    default_cert: C,
) -> (r: Result<(C, K), std::io::Error>)
    ensures
        load_failed(key) ==> r == Err::<(C, K), std::io::Error>(key->0->Err_0),
        !load_failed(key) && load_failed(cert) ==> r == Err::<(C, K), std::io::Error>(
            cert->0->Err_0,
        ),
        !load_failed(key) && !load_failed(cert) ==> r == Ok::<(C, K), std::io::Error>(
            (chosen(cert, default_cert), chosen(key, default_key)),
        ),
{
    let server_key = match key {
        Some(Err(e)) => {
            return Err(e);
        },
        Some(Ok(k)) => k,
        None => default_key,
    };
    let server_cert = match cert {
        Some(Err(e)) => {
            return Err(e);
        },
        Some(Ok(c)) => c,
        None => default_cert,
    };
    Ok((server_cert, server_key))
}

} // verus!
