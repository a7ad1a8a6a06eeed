//! The logic of a memo server: the names and views of its API, the search filters, the
//! SQL statements that it runs on its store with the values they bind, the settings and
//! status it reports, and the decisions of its web layer (who may call what, where a
//! request goes, how large an upload may be).

use vstd::prelude::*;

pub mod api;
pub mod cel;
pub mod ctrl;
pub mod dao;
pub mod hybrid;
pub mod model;
pub mod pb;
pub mod text;

verus! {

} // verus!
