use vstd::prelude::*;

use crate::error::AppError;
use crate::text::has_prefix;
use crate::version::{update_check, validate_update_version};

verus! {

/// Description of the running system and application.
#[derive(Clone, Debug)]
pub struct SystemInfo {
    pub os: String,
    pub os_version: String,
    pub arch: String,
    pub app_version: String,
    pub tauri_version: String,
}

/// An available update, as reported to the frontend.
#[derive(Clone, Debug)]
pub struct UpdateInfo {
    pub version: String,
    pub current_version: String,
    pub body: Option<String>,
    pub date: Option<String>,
}

/// An update that the update service offered.
#[derive(Clone, Debug)]
pub struct OfferedUpdate {
    pub version: String,
    pub body: Option<String>,
    pub date: Option<String>,
}

/// Decides what to report of an update check: nothing offered gives `None`; an offered
/// update is reported unless it would go back to an older version, which is refused.
pub fn update_report(current: &str, offered: Option<OfferedUpdate>) -> (r: Result<Option<UpdateInfo>, AppError>)
    ensures
        offered is None ==> r matches Ok(None),
        offered matches Some(u) ==> (match update_check(current@, u.version@) {
            Ok(_) => r matches Ok(Some(i)) && i.version@ == u.version@ && i.current_version@
                == current@ && i.body == u.body && i.date == u.date,
            Err(m) => r matches Err(AppError::Validation(e)) && e@ == m,
        }),
{
    match offered {
        None => Ok(None),
        Some(u) => match validate_update_version(current, u.version.as_str()) {
            Err(e) => Err(AppError::Validation(e)),
            Ok(()) => Ok(
                Some(
                    UpdateInfo {
                        version: u.version,
                        current_version: current.to_string(),
                        body: u.body,
                        date: u.date,
                    },
                ),
            ),
        },
    }
}

pub const DEEP_LINK_PREFIX: &'static str = "mywallpaper://";

pub open spec fn is_deep_link_text(s: Seq<char>) -> bool {
    DEEP_LINK_PREFIX@.len() <= s.len() && s.subrange(0, DEEP_LINK_PREFIX@.len() as int)
        == DEEP_LINK_PREFIX@
}

/// The arguments of a second launch, or the URLs of a deep-link event, that are deep links
/// of the application, in their order.
pub fn deep_link_arguments(args: &Vec<String>) -> (r: Vec<String>)
    ensures
        r@.len() <= args@.len(),
        forall|i: int| 0 <= i < r@.len() ==> is_deep_link_text(#[trigger] r@[i]@),
        r@.map_values(|s: String| s@) == args@.map_values(|s: String| s@).filter(
            |t: Seq<char>| is_deep_link_text(t),
        ),
{
    let mut out: Vec<String> = Vec::new();
    let mut i: usize = 0;
    while i < args.len()
        invariant
            i <= args@.len(),
            out@.len() <= i,
            forall|k: int| 0 <= k < out@.len() ==> is_deep_link_text(#[trigger] out@[k]@),
            out@.map_values(|s: String| s@) == args@.subrange(0, i as int).map_values(
                |s: String| s@,
            ).filter(|t: Seq<char>| is_deep_link_text(t)),
        decreases args@.len() - i,
    {
        let a = &args[i];
        let prefix_ok = has_prefix(a.as_str(), DEEP_LINK_PREFIX);
        let ghost before = args@.subrange(0, i as int).map_values(|s: String| s@);
        let ghost after = args@.subrange(0, i + 1).map_values(|s: String| s@);
        proof {
            assert(after =~= before.push(args@[i as int]@));
            before.lemma_filter_push(args@[i as int]@, |t: Seq<char>| is_deep_link_text(t));
        }
        let ghost out_before = out@;
        if prefix_ok {
            out.push(a.clone());
            proof {
                assert(out@.map_values(|s: String| s@) =~= out_before.map_values(|s: String| s@).push(
                    args@[i as int]@,
                ));
            }
        }
        i = i + 1;
    }
    proof {
        assert(args@.subrange(0, args@.len() as int) =~= args@);
    }
    out
}

} // verus!
