//! Pass-through position-side readers of wrappers that also answer the other
//! position-side trait themselves. Both traits name their method `position_side`,
//! so these impls name each trait by its path and bring neither into scope.
use vstd::prelude::*;
use crate::execution_report::WithExecutionReportPositionImpact;
use crate::order::WithOrderPosition;
use crate::param::PositionSide;
use crate::pretrade::RequestFieldAccessError;

verus! {

impl<T: crate::request_trait::HasOrderPositionSide> crate::request_trait::HasOrderPositionSide for
    WithExecutionReportPositionImpact<T> {
    fn position_side(&self) -> (r: Result<Option<PositionSide>, RequestFieldAccessError>)
        ensures
            call_ensures(
                <T as crate::request_trait::HasOrderPositionSide>::position_side,
                (&self.inner,),
                r,
            ),
    {
        <T as crate::request_trait::HasOrderPositionSide>::position_side(&self.inner)
    }
}

impl<T: crate::request_trait::HasExecutionReportPositionSide> crate::request_trait::HasExecutionReportPositionSide for
    WithOrderPosition<T> {
    fn position_side(&self) -> (r: Result<Option<PositionSide>, RequestFieldAccessError>)
        ensures
            call_ensures(
                <T as crate::request_trait::HasExecutionReportPositionSide>::position_side,
                (&self.inner,),
                r,
            ),
    {
        <T as crate::request_trait::HasExecutionReportPositionSide>::position_side(&self.inner)
    }
}

} // verus!
