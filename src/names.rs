use vstd::prelude::*;

verus! {

/// An integer-valued solver parameter.
#[derive(Debug, Clone, Copy, PartialEq, Eq, Structural)]
pub enum IntParam {
    Logging,
    LogToConsole,
    Presolve,
    Scaling,
    Dualize,
    LpMethod,
    GPUMode,
    GPUDevice,
    ReqFarkasRay,
    DualPrice,
    DualPerturb,
    CutLevel,
    RootCutLevel,
    NodeCutRounds,
    HeurLevel,
    RoundingHeurLevel,
    DivingHeurLevel,
    FAPHeurLevel,
    SubMipHeurLevel,
    StrongBranching,
    ConflictAnalysis,
    NodeLimit,
    MipTasks,
    BarHomogeneous,
    BarOrder,
    BarStart,
    BarIterLimit,
    Threads,
    BarThreads,
    SimplexThreads,
    CrossoverThreads,
    Crossover,
    SDPMethod,
    IISMethod,
    FeasRelaxMode,
    MipStartMode,
    MipStartNodeLimit,
    TuneMethod,
    TuneMode,
    TuneMeasure,
    TunePermutes,
    TuneOutputLevel,
    LazyConstraints,
}

/// The native name of each `IntParam`: its variant label.
pub open spec fn int_param_name(t: IntParam) -> Seq<char> {
    match t {
        IntParam::Logging => "Logging"@,
        IntParam::LogToConsole => "LogToConsole"@,
        IntParam::Presolve => "Presolve"@,
        IntParam::Scaling => "Scaling"@,
        IntParam::Dualize => "Dualize"@,
        IntParam::LpMethod => "LpMethod"@,
        IntParam::GPUMode => "GPUMode"@,
        IntParam::GPUDevice => "GPUDevice"@,
        IntParam::ReqFarkasRay => "ReqFarkasRay"@,
        IntParam::DualPrice => "DualPrice"@,
        IntParam::DualPerturb => "DualPerturb"@,
        IntParam::CutLevel => "CutLevel"@,
        IntParam::RootCutLevel => "RootCutLevel"@,
        IntParam::NodeCutRounds => "NodeCutRounds"@,
        IntParam::HeurLevel => "HeurLevel"@,
        IntParam::RoundingHeurLevel => "RoundingHeurLevel"@,
        IntParam::DivingHeurLevel => "DivingHeurLevel"@,
        IntParam::FAPHeurLevel => "FAPHeurLevel"@,
        IntParam::SubMipHeurLevel => "SubMipHeurLevel"@,
        IntParam::StrongBranching => "StrongBranching"@,
        IntParam::ConflictAnalysis => "ConflictAnalysis"@,
        IntParam::NodeLimit => "NodeLimit"@,
        IntParam::MipTasks => "MipTasks"@,
        IntParam::BarHomogeneous => "BarHomogeneous"@,
        IntParam::BarOrder => "BarOrder"@,
        IntParam::BarStart => "BarStart"@,
        IntParam::BarIterLimit => "BarIterLimit"@,
        IntParam::Threads => "Threads"@,
        IntParam::BarThreads => "BarThreads"@,
        IntParam::SimplexThreads => "SimplexThreads"@,
        IntParam::CrossoverThreads => "CrossoverThreads"@,
        IntParam::Crossover => "Crossover"@,
        IntParam::SDPMethod => "SDPMethod"@,
        IntParam::IISMethod => "IISMethod"@,
        IntParam::FeasRelaxMode => "FeasRelaxMode"@,
        IntParam::MipStartMode => "MipStartMode"@,
        IntParam::MipStartNodeLimit => "MipStartNodeLimit"@,
        IntParam::TuneMethod => "TuneMethod"@,
        IntParam::TuneMode => "TuneMode"@,
        IntParam::TuneMeasure => "TuneMeasure"@,
        IntParam::TunePermutes => "TunePermutes"@,
        IntParam::TuneOutputLevel => "TuneOutputLevel"@,
        IntParam::LazyConstraints => "LazyConstraints"@,
    }
}

impl IntParam {
    /// The name under which the native layer knows this tag.
    pub fn name(&self) -> (r: &'static str)
        ensures
            r@ == int_param_name(*self),
    {
        match *self {
            IntParam::Logging => "Logging",
            IntParam::LogToConsole => "LogToConsole",
            IntParam::Presolve => "Presolve",
            IntParam::Scaling => "Scaling",
            IntParam::Dualize => "Dualize",
            IntParam::LpMethod => "LpMethod",
            IntParam::GPUMode => "GPUMode",
            IntParam::GPUDevice => "GPUDevice",
            IntParam::ReqFarkasRay => "ReqFarkasRay",
            IntParam::DualPrice => "DualPrice",
            IntParam::DualPerturb => "DualPerturb",
            IntParam::CutLevel => "CutLevel",
            IntParam::RootCutLevel => "RootCutLevel",
            IntParam::NodeCutRounds => "NodeCutRounds",
            IntParam::HeurLevel => "HeurLevel",
            IntParam::RoundingHeurLevel => "RoundingHeurLevel",
            IntParam::DivingHeurLevel => "DivingHeurLevel",
            IntParam::FAPHeurLevel => "FAPHeurLevel",
            IntParam::SubMipHeurLevel => "SubMipHeurLevel",
            IntParam::StrongBranching => "StrongBranching",
            IntParam::ConflictAnalysis => "ConflictAnalysis",
            IntParam::NodeLimit => "NodeLimit",
            IntParam::MipTasks => "MipTasks",
            IntParam::BarHomogeneous => "BarHomogeneous",
            IntParam::BarOrder => "BarOrder",
            IntParam::BarStart => "BarStart",
            IntParam::BarIterLimit => "BarIterLimit",
            IntParam::Threads => "Threads",
            IntParam::BarThreads => "BarThreads",
            IntParam::SimplexThreads => "SimplexThreads",
            IntParam::CrossoverThreads => "CrossoverThreads",
            IntParam::Crossover => "Crossover",
            IntParam::SDPMethod => "SDPMethod",
            IntParam::IISMethod => "IISMethod",
            IntParam::FeasRelaxMode => "FeasRelaxMode",
            IntParam::MipStartMode => "MipStartMode",
            IntParam::MipStartNodeLimit => "MipStartNodeLimit",
            IntParam::TuneMethod => "TuneMethod",
            IntParam::TuneMode => "TuneMode",
            IntParam::TuneMeasure => "TuneMeasure",
            IntParam::TunePermutes => "TunePermutes",
            IntParam::TuneOutputLevel => "TuneOutputLevel",
            IntParam::LazyConstraints => "LazyConstraints",
        }
    }
}

/// A real-valued solver parameter.
#[derive(Debug, Clone, Copy, PartialEq, Eq, Structural)]
pub enum DoubleParam {
    TimeLimit,
    SolTimeLimit,
    MatrixTol,
    FeasTol,
    DualTol,
    IntTol,
    PDLPTol,
    RelGap,
    AbsGap,
    TuneTimeLimit,
    TuneTargetTime,
    TuneTargetRelGap,
}

/// The native name of each `DoubleParam`: its variant label.
pub open spec fn double_param_name(t: DoubleParam) -> Seq<char> {
    match t {
        DoubleParam::TimeLimit => "TimeLimit"@,
        DoubleParam::SolTimeLimit => "SolTimeLimit"@,
        DoubleParam::MatrixTol => "MatrixTol"@,
        DoubleParam::FeasTol => "FeasTol"@,
        DoubleParam::DualTol => "DualTol"@,
        DoubleParam::IntTol => "IntTol"@,
        DoubleParam::PDLPTol => "PDLPTol"@,
        DoubleParam::RelGap => "RelGap"@,
        DoubleParam::AbsGap => "AbsGap"@,
        DoubleParam::TuneTimeLimit => "TuneTimeLimit"@,
        DoubleParam::TuneTargetTime => "TuneTargetTime"@,
        DoubleParam::TuneTargetRelGap => "TuneTargetRelGap"@,
    }
}

impl DoubleParam {
    /// The name under which the native layer knows this tag.
    pub fn name(&self) -> (r: &'static str)
        ensures
            r@ == double_param_name(*self),
    {
        match *self {
            DoubleParam::TimeLimit => "TimeLimit",
            DoubleParam::SolTimeLimit => "SolTimeLimit",
            DoubleParam::MatrixTol => "MatrixTol",
            DoubleParam::FeasTol => "FeasTol",
            DoubleParam::DualTol => "DualTol",
            DoubleParam::IntTol => "IntTol",
            DoubleParam::PDLPTol => "PDLPTol",
            DoubleParam::RelGap => "RelGap",
            DoubleParam::AbsGap => "AbsGap",
            DoubleParam::TuneTimeLimit => "TuneTimeLimit",
            DoubleParam::TuneTargetTime => "TuneTargetTime",
            DoubleParam::TuneTargetRelGap => "TuneTargetRelGap",
        }
    }
}

/// An integer-valued read-only solver attribute.
#[derive(Debug, Clone, Copy, PartialEq, Eq, Structural)]
pub enum IntAttr {
    Cols,
    PSDCols,
    Rows,
    Elems,
    QElems,
    PSDElems,
    SymMats,
    Bins,
    Ints,
    Soss,
    Cones,
    ExpCones,
    QConstrs,
    PSDConstrs,
    LMIConstrs,
    Indicators,
    IISCols,
    IISRows,
    IISSOSs,
    IISIndicators,
    ObjSense,
    LpStatus,
    MipStatus,
    SimplexIter,
    BarrierIter,
    NodeCnt,
    PoolSols,
    TuneResults,
    HasLpSol,
    HasDualFarkas,
    HasPrimalRay,
    HasBasis,
    HasMipSol,
    HasQObj,
    HasPSDObj,
    HasIIS,
    HasFeasRelaxSol,
    IsMIP,
    IsMinIIS,
}

/// The native name of each `IntAttr`: its variant label.
pub open spec fn int_attr_name(t: IntAttr) -> Seq<char> {
    match t {
        IntAttr::Cols => "Cols"@,
        IntAttr::PSDCols => "PSDCols"@,
        IntAttr::Rows => "Rows"@,
        IntAttr::Elems => "Elems"@,
        IntAttr::QElems => "QElems"@,
        IntAttr::PSDElems => "PSDElems"@,
        IntAttr::SymMats => "SymMats"@,
        IntAttr::Bins => "Bins"@,
        IntAttr::Ints => "Ints"@,
        IntAttr::Soss => "Soss"@,
        IntAttr::Cones => "Cones"@,
        IntAttr::ExpCones => "ExpCones"@,
        IntAttr::QConstrs => "QConstrs"@,
        IntAttr::PSDConstrs => "PSDConstrs"@,
        IntAttr::LMIConstrs => "LMIConstrs"@,
        IntAttr::Indicators => "Indicators"@,
        IntAttr::IISCols => "IISCols"@,
        IntAttr::IISRows => "IISRows"@,
        IntAttr::IISSOSs => "IISSOSs"@,
        IntAttr::IISIndicators => "IISIndicators"@,
        IntAttr::ObjSense => "ObjSense"@,
        IntAttr::LpStatus => "LpStatus"@,
        IntAttr::MipStatus => "MipStatus"@,
        IntAttr::SimplexIter => "SimplexIter"@,
        IntAttr::BarrierIter => "BarrierIter"@,
        IntAttr::NodeCnt => "NodeCnt"@,
        IntAttr::PoolSols => "PoolSols"@,
        IntAttr::TuneResults => "TuneResults"@,
        IntAttr::HasLpSol => "HasLpSol"@,
        IntAttr::HasDualFarkas => "HasDualFarkas"@,
        IntAttr::HasPrimalRay => "HasPrimalRay"@,
        IntAttr::HasBasis => "HasBasis"@,
        IntAttr::HasMipSol => "HasMipSol"@,
        IntAttr::HasQObj => "HasQObj"@,
        IntAttr::HasPSDObj => "HasPSDObj"@,
        IntAttr::HasIIS => "HasIIS"@,
        IntAttr::HasFeasRelaxSol => "HasFeasRelaxSol"@,
        IntAttr::IsMIP => "IsMIP"@,
        IntAttr::IsMinIIS => "IsMinIIS"@,
    }
}

impl IntAttr {
    /// The name under which the native layer knows this tag.
    pub fn name(&self) -> (r: &'static str)
        ensures
            r@ == int_attr_name(*self),
    {
        match *self {
            IntAttr::Cols => "Cols",
            IntAttr::PSDCols => "PSDCols",
            IntAttr::Rows => "Rows",
            IntAttr::Elems => "Elems",
            IntAttr::QElems => "QElems",
            IntAttr::PSDElems => "PSDElems",
            IntAttr::SymMats => "SymMats",
            IntAttr::Bins => "Bins",
            IntAttr::Ints => "Ints",
            IntAttr::Soss => "Soss",
            IntAttr::Cones => "Cones",
            IntAttr::ExpCones => "ExpCones",
            IntAttr::QConstrs => "QConstrs",
            IntAttr::PSDConstrs => "PSDConstrs",
            IntAttr::LMIConstrs => "LMIConstrs",
            IntAttr::Indicators => "Indicators",
            IntAttr::IISCols => "IISCols",
            IntAttr::IISRows => "IISRows",
            IntAttr::IISSOSs => "IISSOSs",
            IntAttr::IISIndicators => "IISIndicators",
            IntAttr::ObjSense => "ObjSense",
            IntAttr::LpStatus => "LpStatus",
            IntAttr::MipStatus => "MipStatus",
            IntAttr::SimplexIter => "SimplexIter",
            IntAttr::BarrierIter => "BarrierIter",
            IntAttr::NodeCnt => "NodeCnt",
            IntAttr::PoolSols => "PoolSols",
            IntAttr::TuneResults => "TuneResults",
            IntAttr::HasLpSol => "HasLpSol",
            IntAttr::HasDualFarkas => "HasDualFarkas",
            IntAttr::HasPrimalRay => "HasPrimalRay",
            IntAttr::HasBasis => "HasBasis",
            IntAttr::HasMipSol => "HasMipSol",
            IntAttr::HasQObj => "HasQObj",
            IntAttr::HasPSDObj => "HasPSDObj",
            IntAttr::HasIIS => "HasIIS",
            IntAttr::HasFeasRelaxSol => "HasFeasRelaxSol",
            IntAttr::IsMIP => "IsMIP",
            IntAttr::IsMinIIS => "IsMinIIS",
        }
    }
}

/// A real-valued read-only solver attribute.
#[derive(Debug, Clone, Copy, PartialEq, Eq, Structural)]
pub enum DoubleAttr {
    SolvingTime,
    ObjConst,
    LpObjval,
    BestObj,
    BestBnd,
    BestGap,
    FeasRelaxObj,
}

/// The native name of each `DoubleAttr`: its variant label.
pub open spec fn double_attr_name(t: DoubleAttr) -> Seq<char> {
    match t {
        DoubleAttr::SolvingTime => "SolvingTime"@,
        DoubleAttr::ObjConst => "ObjConst"@,
        DoubleAttr::LpObjval => "LpObjval"@,
        DoubleAttr::BestObj => "BestObj"@,
        DoubleAttr::BestBnd => "BestBnd"@,
        DoubleAttr::BestGap => "BestGap"@,
        DoubleAttr::FeasRelaxObj => "FeasRelaxObj"@,
    }
}

impl DoubleAttr {
    /// The name under which the native layer knows this tag.
    pub fn name(&self) -> (r: &'static str)
        ensures
            r@ == double_attr_name(*self),
    {
        match *self {
            DoubleAttr::SolvingTime => "SolvingTime",
            DoubleAttr::ObjConst => "ObjConst",
            DoubleAttr::LpObjval => "LpObjval",
            DoubleAttr::BestObj => "BestObj",
            DoubleAttr::BestBnd => "BestBnd",
            DoubleAttr::BestGap => "BestGap",
            DoubleAttr::FeasRelaxObj => "FeasRelaxObj",
        }
    }
}

} // verus!
