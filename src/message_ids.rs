//! Message kinds and their numeric wire codes, one table per direction.

use vstd::prelude::*;

verus! {

/// A kind of message that arrives from the server.
#[derive(Debug, Clone, Copy, PartialEq, Eq, Structural)]
pub enum IncomingMessageIds {
    TickPrice,
    TickSize,
    OrderStatus,
    ErrMsg,
    OpenOrder,
    AcctValue,
    PortfolioValue,
    AcctUpdateTime,
    NextValidId,
    ContractData,
    ExecutionData,
    MarketDepth,
    MarketDepthL2,
    NewsBulletins,
    ManagedAccts,
    ReceiveFa,
    HistoricalData,
    BondContractData,
    ScannerParameters,
    ScannerData,
    TickOptionComputation,
    TickGeneric,
    TickString,
    TickEfp,
    CurrentTime,
    RealTimeBars,
    FundamentalData,
    ContractDataEnd,
    OpenOrderEnd,
    AcctDownloadEnd,
    ExecutionDataEnd,
    DeltaNeutralValidation,
    TickSnapshotEnd,
    MarketDataType,
    CommissionReport,
    PositionData,
    PositionEnd,
    AccountSummary,
    AccountSummaryEnd,
    VerifyMessageApi,
    VerifyCompleted,
    DisplayGroupList,
    DisplayGroupUpdated,
    VerifyAndAuthMessageApi,
    VerifyAndAuthCompleted,
    PositionMulti,
    PositionMultiEnd,
    AccountUpdateMulti,
    AccountUpdateMultiEnd,
    SecurityDefinitionOptionParameter,
    SecurityDefinitionOptionParameterEnd,
    SoftDollarTiers,
    FamilyCodes,
    SymbolSamples,
    MktDepthExchanges,
    TickReqParams,
    SmartComponents,
    NewsArticle,
    TickNews,
    NewsProviders,
    HistoricalNews,
    HistoricalNewsEnd,
    HeadTimestamp,
    HistogramData,
    HistoricalDataUpdate,
    RerouteMktDataReq,
    RerouteMktDepthReq,
    MarketRule,
    Pnl,
    PnlSingle,
    HistoricalTicks,
    HistoricalTicksBidAsk,
    HistoricalTicksLast,
    TickByTick,
    OrderBound,
    CompletedOrder,
    CompletedOrdersEnd,
}

impl IncomingMessageIds {
    /// The wire code of this kind.
    pub open spec fn spec_code(self) -> i32 {
        match self {
            IncomingMessageIds::TickPrice => 1,
            IncomingMessageIds::TickSize => 2,
            IncomingMessageIds::OrderStatus => 3,
            IncomingMessageIds::ErrMsg => 4,
            IncomingMessageIds::OpenOrder => 5,
            IncomingMessageIds::AcctValue => 6,
            IncomingMessageIds::PortfolioValue => 7,
            IncomingMessageIds::AcctUpdateTime => 8,
            IncomingMessageIds::NextValidId => 9,
            IncomingMessageIds::ContractData => 10,
            IncomingMessageIds::ExecutionData => 11,
            IncomingMessageIds::MarketDepth => 12,
            IncomingMessageIds::MarketDepthL2 => 13,
            IncomingMessageIds::NewsBulletins => 14,
            IncomingMessageIds::ManagedAccts => 15,
            IncomingMessageIds::ReceiveFa => 16,
            IncomingMessageIds::HistoricalData => 17,
            IncomingMessageIds::BondContractData => 18,
            IncomingMessageIds::ScannerParameters => 19,
            IncomingMessageIds::ScannerData => 20,
            IncomingMessageIds::TickOptionComputation => 21,
            IncomingMessageIds::TickGeneric => 45,
            IncomingMessageIds::TickString => 46,
            IncomingMessageIds::TickEfp => 47,
            IncomingMessageIds::CurrentTime => 49,
            IncomingMessageIds::RealTimeBars => 50,
            IncomingMessageIds::FundamentalData => 51,
            IncomingMessageIds::ContractDataEnd => 52,
            IncomingMessageIds::OpenOrderEnd => 53,
            IncomingMessageIds::AcctDownloadEnd => 54,
            IncomingMessageIds::ExecutionDataEnd => 55,
            IncomingMessageIds::DeltaNeutralValidation => 56,
            IncomingMessageIds::TickSnapshotEnd => 57,
            IncomingMessageIds::MarketDataType => 58,
            IncomingMessageIds::CommissionReport => 59,
            IncomingMessageIds::PositionData => 61,
            IncomingMessageIds::PositionEnd => 62,
            IncomingMessageIds::AccountSummary => 63,
            IncomingMessageIds::AccountSummaryEnd => 64,
            IncomingMessageIds::VerifyMessageApi => 65,
            IncomingMessageIds::VerifyCompleted => 66,
            IncomingMessageIds::DisplayGroupList => 67,
            IncomingMessageIds::DisplayGroupUpdated => 68,
            IncomingMessageIds::VerifyAndAuthMessageApi => 69,
            IncomingMessageIds::VerifyAndAuthCompleted => 70,
            IncomingMessageIds::PositionMulti => 71,
            IncomingMessageIds::PositionMultiEnd => 72,
            IncomingMessageIds::AccountUpdateMulti => 73,
            IncomingMessageIds::AccountUpdateMultiEnd => 74,
            IncomingMessageIds::SecurityDefinitionOptionParameter => 75,
            IncomingMessageIds::SecurityDefinitionOptionParameterEnd => 76,
            IncomingMessageIds::SoftDollarTiers => 77,
            IncomingMessageIds::FamilyCodes => 78,
            IncomingMessageIds::SymbolSamples => 79,
            IncomingMessageIds::MktDepthExchanges => 80,
            IncomingMessageIds::TickReqParams => 81,
            IncomingMessageIds::SmartComponents => 82,
            IncomingMessageIds::NewsArticle => 83,
            IncomingMessageIds::TickNews => 84,
            IncomingMessageIds::NewsProviders => 85,
            IncomingMessageIds::HistoricalNews => 86,
            IncomingMessageIds::HistoricalNewsEnd => 87,
            IncomingMessageIds::HeadTimestamp => 88,
            IncomingMessageIds::HistogramData => 89,
            IncomingMessageIds::HistoricalDataUpdate => 90,
            IncomingMessageIds::RerouteMktDataReq => 91,
            IncomingMessageIds::RerouteMktDepthReq => 92,
            IncomingMessageIds::MarketRule => 93,
            IncomingMessageIds::Pnl => 94,
            IncomingMessageIds::PnlSingle => 95,
            IncomingMessageIds::HistoricalTicks => 96,
            IncomingMessageIds::HistoricalTicksBidAsk => 97,
            IncomingMessageIds::HistoricalTicksLast => 98,
            IncomingMessageIds::TickByTick => 99,
            IncomingMessageIds::OrderBound => 100,
            IncomingMessageIds::CompletedOrder => 101,
            IncomingMessageIds::CompletedOrdersEnd => 102,
        }
    }

    /// The kind that the wire code `code` stands for, if any.
    pub open spec fn spec_from_code(code: i32) -> Option<IncomingMessageIds> {
        match code {
            1 => Some(IncomingMessageIds::TickPrice),
            2 => Some(IncomingMessageIds::TickSize),
            3 => Some(IncomingMessageIds::OrderStatus),
            4 => Some(IncomingMessageIds::ErrMsg),
            5 => Some(IncomingMessageIds::OpenOrder),
            6 => Some(IncomingMessageIds::AcctValue),
            7 => Some(IncomingMessageIds::PortfolioValue),
            8 => Some(IncomingMessageIds::AcctUpdateTime),
            9 => Some(IncomingMessageIds::NextValidId),
            10 => Some(IncomingMessageIds::ContractData),
            11 => Some(IncomingMessageIds::ExecutionData),
            12 => Some(IncomingMessageIds::MarketDepth),
            13 => Some(IncomingMessageIds::MarketDepthL2),
            14 => Some(IncomingMessageIds::NewsBulletins),
            15 => Some(IncomingMessageIds::ManagedAccts),
            16 => Some(IncomingMessageIds::ReceiveFa),
            17 => Some(IncomingMessageIds::HistoricalData),
            18 => Some(IncomingMessageIds::BondContractData),
            19 => Some(IncomingMessageIds::ScannerParameters),
            20 => Some(IncomingMessageIds::ScannerData),
            21 => Some(IncomingMessageIds::TickOptionComputation),
            45 => Some(IncomingMessageIds::TickGeneric),
            46 => Some(IncomingMessageIds::TickString),
            47 => Some(IncomingMessageIds::TickEfp),
            49 => Some(IncomingMessageIds::CurrentTime),
            50 => Some(IncomingMessageIds::RealTimeBars),
            51 => Some(IncomingMessageIds::FundamentalData),
            52 => Some(IncomingMessageIds::ContractDataEnd),
            53 => Some(IncomingMessageIds::OpenOrderEnd),
            54 => Some(IncomingMessageIds::AcctDownloadEnd),
            55 => Some(IncomingMessageIds::ExecutionDataEnd),
            56 => Some(IncomingMessageIds::DeltaNeutralValidation),
            57 => Some(IncomingMessageIds::TickSnapshotEnd),
            58 => Some(IncomingMessageIds::MarketDataType),
            59 => Some(IncomingMessageIds::CommissionReport),
            61 => Some(IncomingMessageIds::PositionData),
            62 => Some(IncomingMessageIds::PositionEnd),
            63 => Some(IncomingMessageIds::AccountSummary),
            64 => Some(IncomingMessageIds::AccountSummaryEnd),
            65 => Some(IncomingMessageIds::VerifyMessageApi),
            66 => Some(IncomingMessageIds::VerifyCompleted),
            67 => Some(IncomingMessageIds::DisplayGroupList),
            68 => Some(IncomingMessageIds::DisplayGroupUpdated),
            69 => Some(IncomingMessageIds::VerifyAndAuthMessageApi),
            70 => Some(IncomingMessageIds::VerifyAndAuthCompleted),
            71 => Some(IncomingMessageIds::PositionMulti),
            72 => Some(IncomingMessageIds::PositionMultiEnd),
            73 => Some(IncomingMessageIds::AccountUpdateMulti),
            74 => Some(IncomingMessageIds::AccountUpdateMultiEnd),
            75 => Some(IncomingMessageIds::SecurityDefinitionOptionParameter),
            76 => Some(IncomingMessageIds::SecurityDefinitionOptionParameterEnd),
            77 => Some(IncomingMessageIds::SoftDollarTiers),
            78 => Some(IncomingMessageIds::FamilyCodes),
            79 => Some(IncomingMessageIds::SymbolSamples),
            80 => Some(IncomingMessageIds::MktDepthExchanges),
            81 => Some(IncomingMessageIds::TickReqParams),
            82 => Some(IncomingMessageIds::SmartComponents),
            83 => Some(IncomingMessageIds::NewsArticle),
            84 => Some(IncomingMessageIds::TickNews),
            85 => Some(IncomingMessageIds::NewsProviders),
            86 => Some(IncomingMessageIds::HistoricalNews),
            87 => Some(IncomingMessageIds::HistoricalNewsEnd),
            88 => Some(IncomingMessageIds::HeadTimestamp),
            89 => Some(IncomingMessageIds::HistogramData),
            90 => Some(IncomingMessageIds::HistoricalDataUpdate),
            91 => Some(IncomingMessageIds::RerouteMktDataReq),
            92 => Some(IncomingMessageIds::RerouteMktDepthReq),
            93 => Some(IncomingMessageIds::MarketRule),
            94 => Some(IncomingMessageIds::Pnl),
            95 => Some(IncomingMessageIds::PnlSingle),
            96 => Some(IncomingMessageIds::HistoricalTicks),
            97 => Some(IncomingMessageIds::HistoricalTicksBidAsk),
            98 => Some(IncomingMessageIds::HistoricalTicksLast),
            99 => Some(IncomingMessageIds::TickByTick),
            100 => Some(IncomingMessageIds::OrderBound),
            101 => Some(IncomingMessageIds::CompletedOrder),
            102 => Some(IncomingMessageIds::CompletedOrdersEnd),
            _ => None,
        }
    }

    /// The wire code of this kind.
    pub fn code(&self) -> (r: i32)
        ensures
            r == self.spec_code(),
    {
        match self {
            IncomingMessageIds::TickPrice => 1,
            IncomingMessageIds::TickSize => 2,
            IncomingMessageIds::OrderStatus => 3,
            IncomingMessageIds::ErrMsg => 4,
            IncomingMessageIds::OpenOrder => 5,
            IncomingMessageIds::AcctValue => 6,
            IncomingMessageIds::PortfolioValue => 7,
            IncomingMessageIds::AcctUpdateTime => 8,
            IncomingMessageIds::NextValidId => 9,
            IncomingMessageIds::ContractData => 10,
            IncomingMessageIds::ExecutionData => 11,
            IncomingMessageIds::MarketDepth => 12,
            IncomingMessageIds::MarketDepthL2 => 13,
            IncomingMessageIds::NewsBulletins => 14,
            IncomingMessageIds::ManagedAccts => 15,
            IncomingMessageIds::ReceiveFa => 16,
            IncomingMessageIds::HistoricalData => 17,
            IncomingMessageIds::BondContractData => 18,
            IncomingMessageIds::ScannerParameters => 19,
            IncomingMessageIds::ScannerData => 20,
            IncomingMessageIds::TickOptionComputation => 21,
            IncomingMessageIds::TickGeneric => 45,
            IncomingMessageIds::TickString => 46,
            IncomingMessageIds::TickEfp => 47,
            IncomingMessageIds::CurrentTime => 49,
            IncomingMessageIds::RealTimeBars => 50,
            IncomingMessageIds::FundamentalData => 51,
            IncomingMessageIds::ContractDataEnd => 52,
            IncomingMessageIds::OpenOrderEnd => 53,
            IncomingMessageIds::AcctDownloadEnd => 54,
            IncomingMessageIds::ExecutionDataEnd => 55,
            IncomingMessageIds::DeltaNeutralValidation => 56,
            IncomingMessageIds::TickSnapshotEnd => 57,
            IncomingMessageIds::MarketDataType => 58,
            IncomingMessageIds::CommissionReport => 59,
            IncomingMessageIds::PositionData => 61,
            IncomingMessageIds::PositionEnd => 62,
            IncomingMessageIds::AccountSummary => 63,
            IncomingMessageIds::AccountSummaryEnd => 64,
            IncomingMessageIds::VerifyMessageApi => 65,
            IncomingMessageIds::VerifyCompleted => 66,
            IncomingMessageIds::DisplayGroupList => 67,
            IncomingMessageIds::DisplayGroupUpdated => 68,
            IncomingMessageIds::VerifyAndAuthMessageApi => 69,
            IncomingMessageIds::VerifyAndAuthCompleted => 70,
            IncomingMessageIds::PositionMulti => 71,
            IncomingMessageIds::PositionMultiEnd => 72,
            IncomingMessageIds::AccountUpdateMulti => 73,
            IncomingMessageIds::AccountUpdateMultiEnd => 74,
            IncomingMessageIds::SecurityDefinitionOptionParameter => 75,
            IncomingMessageIds::SecurityDefinitionOptionParameterEnd => 76,
            IncomingMessageIds::SoftDollarTiers => 77,
            IncomingMessageIds::FamilyCodes => 78,
            IncomingMessageIds::SymbolSamples => 79,
            IncomingMessageIds::MktDepthExchanges => 80,
            IncomingMessageIds::TickReqParams => 81,
            IncomingMessageIds::SmartComponents => 82,
            IncomingMessageIds::NewsArticle => 83,
            IncomingMessageIds::TickNews => 84,
            IncomingMessageIds::NewsProviders => 85,
            IncomingMessageIds::HistoricalNews => 86,
            IncomingMessageIds::HistoricalNewsEnd => 87,
            IncomingMessageIds::HeadTimestamp => 88,
            IncomingMessageIds::HistogramData => 89,
            IncomingMessageIds::HistoricalDataUpdate => 90,
            IncomingMessageIds::RerouteMktDataReq => 91,
            IncomingMessageIds::RerouteMktDepthReq => 92,
            IncomingMessageIds::MarketRule => 93,
            IncomingMessageIds::Pnl => 94,
            IncomingMessageIds::PnlSingle => 95,
            IncomingMessageIds::HistoricalTicks => 96,
            IncomingMessageIds::HistoricalTicksBidAsk => 97,
            IncomingMessageIds::HistoricalTicksLast => 98,
            IncomingMessageIds::TickByTick => 99,
            IncomingMessageIds::OrderBound => 100,
            IncomingMessageIds::CompletedOrder => 101,
            IncomingMessageIds::CompletedOrdersEnd => 102,
        }
    }

    /// The kind that the wire code `code` stands for; `None` for a code
    /// that no kind has.
    pub fn from_code(code: i32) -> (r: Option<IncomingMessageIds>)
        ensures
            r == Self::spec_from_code(code),
            r matches Some(k) ==> k.spec_code() == code,
            r is None ==> forall|k: IncomingMessageIds| #[trigger] k.spec_code() != code,
    {
        proof {
            assert forall|k: IncomingMessageIds| #[trigger] k.spec_code() == code implies Self::spec_from_code(code) == Some(k) by {
                Self::lemma_code_round_trip(k);
            }
        }
        match code {
            1 => Some(IncomingMessageIds::TickPrice),
            2 => Some(IncomingMessageIds::TickSize),
            3 => Some(IncomingMessageIds::OrderStatus),
            4 => Some(IncomingMessageIds::ErrMsg),
            5 => Some(IncomingMessageIds::OpenOrder),
            6 => Some(IncomingMessageIds::AcctValue),
            7 => Some(IncomingMessageIds::PortfolioValue),
            8 => Some(IncomingMessageIds::AcctUpdateTime),
            9 => Some(IncomingMessageIds::NextValidId),
            10 => Some(IncomingMessageIds::ContractData),
            11 => Some(IncomingMessageIds::ExecutionData),
            12 => Some(IncomingMessageIds::MarketDepth),
            13 => Some(IncomingMessageIds::MarketDepthL2),
            14 => Some(IncomingMessageIds::NewsBulletins),
            15 => Some(IncomingMessageIds::ManagedAccts),
            16 => Some(IncomingMessageIds::ReceiveFa),
            17 => Some(IncomingMessageIds::HistoricalData),
            18 => Some(IncomingMessageIds::BondContractData),
            19 => Some(IncomingMessageIds::ScannerParameters),
            20 => Some(IncomingMessageIds::ScannerData),
            21 => Some(IncomingMessageIds::TickOptionComputation),
            45 => Some(IncomingMessageIds::TickGeneric),
            46 => Some(IncomingMessageIds::TickString),
            47 => Some(IncomingMessageIds::TickEfp),
            49 => Some(IncomingMessageIds::CurrentTime),
            50 => Some(IncomingMessageIds::RealTimeBars),
            51 => Some(IncomingMessageIds::FundamentalData),
            52 => Some(IncomingMessageIds::ContractDataEnd),
            53 => Some(IncomingMessageIds::OpenOrderEnd),
            54 => Some(IncomingMessageIds::AcctDownloadEnd),
            55 => Some(IncomingMessageIds::ExecutionDataEnd),
            56 => Some(IncomingMessageIds::DeltaNeutralValidation),
            57 => Some(IncomingMessageIds::TickSnapshotEnd),
            58 => Some(IncomingMessageIds::MarketDataType),
            59 => Some(IncomingMessageIds::CommissionReport),
            61 => Some(IncomingMessageIds::PositionData),
            62 => Some(IncomingMessageIds::PositionEnd),
            63 => Some(IncomingMessageIds::AccountSummary),
            64 => Some(IncomingMessageIds::AccountSummaryEnd),
            65 => Some(IncomingMessageIds::VerifyMessageApi),
            66 => Some(IncomingMessageIds::VerifyCompleted),
            67 => Some(IncomingMessageIds::DisplayGroupList),
            68 => Some(IncomingMessageIds::DisplayGroupUpdated),
            69 => Some(IncomingMessageIds::VerifyAndAuthMessageApi),
            70 => Some(IncomingMessageIds::VerifyAndAuthCompleted),
            71 => Some(IncomingMessageIds::PositionMulti),
            72 => Some(IncomingMessageIds::PositionMultiEnd),
            73 => Some(IncomingMessageIds::AccountUpdateMulti),
            74 => Some(IncomingMessageIds::AccountUpdateMultiEnd),
            75 => Some(IncomingMessageIds::SecurityDefinitionOptionParameter),
            76 => Some(IncomingMessageIds::SecurityDefinitionOptionParameterEnd),
            77 => Some(IncomingMessageIds::SoftDollarTiers),
            78 => Some(IncomingMessageIds::FamilyCodes),
            79 => Some(IncomingMessageIds::SymbolSamples),
            80 => Some(IncomingMessageIds::MktDepthExchanges),
            81 => Some(IncomingMessageIds::TickReqParams),
            82 => Some(IncomingMessageIds::SmartComponents),
            83 => Some(IncomingMessageIds::NewsArticle),
            84 => Some(IncomingMessageIds::TickNews),
            85 => Some(IncomingMessageIds::NewsProviders),
            86 => Some(IncomingMessageIds::HistoricalNews),
            87 => Some(IncomingMessageIds::HistoricalNewsEnd),
            88 => Some(IncomingMessageIds::HeadTimestamp),
            89 => Some(IncomingMessageIds::HistogramData),
            90 => Some(IncomingMessageIds::HistoricalDataUpdate),
            91 => Some(IncomingMessageIds::RerouteMktDataReq),
            92 => Some(IncomingMessageIds::RerouteMktDepthReq),
            93 => Some(IncomingMessageIds::MarketRule),
            94 => Some(IncomingMessageIds::Pnl),
            95 => Some(IncomingMessageIds::PnlSingle),
            96 => Some(IncomingMessageIds::HistoricalTicks),
            97 => Some(IncomingMessageIds::HistoricalTicksBidAsk),
            98 => Some(IncomingMessageIds::HistoricalTicksLast),
            99 => Some(IncomingMessageIds::TickByTick),
            100 => Some(IncomingMessageIds::OrderBound),
            101 => Some(IncomingMessageIds::CompletedOrder),
            102 => Some(IncomingMessageIds::CompletedOrdersEnd),
            _ => None,
        }
    }

    /// Every kind is found again from its own code, and a code names at
    /// most the one kind that has it.
    pub proof fn lemma_code_round_trip(k: IncomingMessageIds)
        ensures
            Self::spec_from_code(k.spec_code()) == Some(k),
    {
    }

    /// A code that the table names decodes to a kind that carries that code.
    pub proof fn lemma_from_code_sound(code: i32)
        ensures
            Self::spec_from_code(code) matches Some(k) ==> k.spec_code() == code,
    {
    }
}

/// A kind of request that is sent to the server.
#[derive(Debug, Clone, Copy, PartialEq, Eq, Structural)]
pub enum OutgoingMessageIds {
    ReqMktData,
    CancelMktData,
    PlaceOrder,
    CancelOrder,
    ReqOpenOrders,
    ReqAcctData,
    ReqExecutions,
    ReqIds,
    ReqContractData,
    ReqMktDepth,
    CancelMktDepth,
    ReqNewsBulletins,
    CancelNewsBulletins,
    SetServerLoglevel,
    ReqAutoOpenOrders,
    ReqAllOpenOrders,
    ReqManagedAccts,
    ReqFa,
    ReplaceFa,
    ReqHistoricalData,
    ExerciseOptions,
    ReqScannerSubscription,
    CancelScannerSubscription,
    ReqScannerParameters,
    CancelHistoricalData,
    ReqCurrentTime,
    ReqRealTimeBars,
    CancelRealTimeBars,
    ReqFundamentalData,
    CancelFundamentalData,
    ReqCalcImpliedVolat,
    ReqCalcOptionPrice,
    CancelCalcImpliedVolat,
    CancelCalcOptionPrice,
    ReqGlobalCancel,
    ReqMarketDataType,
    ReqPositions,
    ReqAccountSummary,
    CancelAccountSummary,
    CancelPositions,
    VerifyRequest,
    VerifyMessage,
    QueryDisplayGroups,
    SubscribeToGroupEvents,
    UpdateDisplayGroup,
    UnsubscribeFromGroupEvents,
    StartApi,
    VerifyAndAuthRequest,
    VerifyAndAuthMessage,
    ReqPositionsMulti,
    CancelPositionsMulti,
    ReqAccountUpdatesMulti,
    CancelAccountUpdatesMulti,
    ReqSecDefOptParams,
    ReqSoftDollarTiers,
    ReqFamilyCodes,
    ReqMatchingSymbols,
    ReqMktDepthExchanges,
    ReqSmartComponents,
    ReqNewsArticle,
    ReqNewsProviders,
    ReqHistoricalNews,
    ReqHeadTimestamp,
    ReqHistogramData,
    CancelHistogramData,
    CancelHeadTimestamp,
    ReqMarketRule,
    ReqPnl,
    CancelPnl,
    ReqPnlSingle,
    CancelPnlSingle,
    ReqHistoricalTicks,
    ReqTickByTickData,
    CancelTickByTickData,
    ReqCompletedOrders,
}

impl OutgoingMessageIds {
    /// The wire code of this kind.
    pub open spec fn spec_code(self) -> i32 {
        match self {
            OutgoingMessageIds::ReqMktData => 1,
            OutgoingMessageIds::CancelMktData => 2,
            OutgoingMessageIds::PlaceOrder => 3,
            OutgoingMessageIds::CancelOrder => 4,
            OutgoingMessageIds::ReqOpenOrders => 5,
            OutgoingMessageIds::ReqAcctData => 6,
            OutgoingMessageIds::ReqExecutions => 7,
            OutgoingMessageIds::ReqIds => 8,
            OutgoingMessageIds::ReqContractData => 9,
            OutgoingMessageIds::ReqMktDepth => 10,
            OutgoingMessageIds::CancelMktDepth => 11,
            OutgoingMessageIds::ReqNewsBulletins => 12,
            OutgoingMessageIds::CancelNewsBulletins => 13,
            OutgoingMessageIds::SetServerLoglevel => 14,
            OutgoingMessageIds::ReqAutoOpenOrders => 15,
            OutgoingMessageIds::ReqAllOpenOrders => 16,
            OutgoingMessageIds::ReqManagedAccts => 17,
            OutgoingMessageIds::ReqFa => 18,
            OutgoingMessageIds::ReplaceFa => 19,
            OutgoingMessageIds::ReqHistoricalData => 20,
            OutgoingMessageIds::ExerciseOptions => 21,
            OutgoingMessageIds::ReqScannerSubscription => 22,
            OutgoingMessageIds::CancelScannerSubscription => 23,
            OutgoingMessageIds::ReqScannerParameters => 24,
            OutgoingMessageIds::CancelHistoricalData => 25,
            OutgoingMessageIds::ReqCurrentTime => 49,
            OutgoingMessageIds::ReqRealTimeBars => 50,
            OutgoingMessageIds::CancelRealTimeBars => 51,
            OutgoingMessageIds::ReqFundamentalData => 52,
            OutgoingMessageIds::CancelFundamentalData => 53,
            OutgoingMessageIds::ReqCalcImpliedVolat => 54,
            OutgoingMessageIds::ReqCalcOptionPrice => 55,
            OutgoingMessageIds::CancelCalcImpliedVolat => 56,
            OutgoingMessageIds::CancelCalcOptionPrice => 57,
            OutgoingMessageIds::ReqGlobalCancel => 58,
            OutgoingMessageIds::ReqMarketDataType => 59,
            OutgoingMessageIds::ReqPositions => 61,
            OutgoingMessageIds::ReqAccountSummary => 62,
            OutgoingMessageIds::CancelAccountSummary => 63,
            OutgoingMessageIds::CancelPositions => 64,
            OutgoingMessageIds::VerifyRequest => 65,
            OutgoingMessageIds::VerifyMessage => 66,
            OutgoingMessageIds::QueryDisplayGroups => 67,
            OutgoingMessageIds::SubscribeToGroupEvents => 68,
            OutgoingMessageIds::UpdateDisplayGroup => 69,
            OutgoingMessageIds::UnsubscribeFromGroupEvents => 70,
            OutgoingMessageIds::StartApi => 71,
            OutgoingMessageIds::VerifyAndAuthRequest => 72,
            OutgoingMessageIds::VerifyAndAuthMessage => 73,
            OutgoingMessageIds::ReqPositionsMulti => 74,
            OutgoingMessageIds::CancelPositionsMulti => 75,
            OutgoingMessageIds::ReqAccountUpdatesMulti => 76,
            OutgoingMessageIds::CancelAccountUpdatesMulti => 77,
            OutgoingMessageIds::ReqSecDefOptParams => 78,
            OutgoingMessageIds::ReqSoftDollarTiers => 79,
            OutgoingMessageIds::ReqFamilyCodes => 80,
            OutgoingMessageIds::ReqMatchingSymbols => 81,
            OutgoingMessageIds::ReqMktDepthExchanges => 82,
            OutgoingMessageIds::ReqSmartComponents => 83,
            OutgoingMessageIds::ReqNewsArticle => 84,
            OutgoingMessageIds::ReqNewsProviders => 85,
            OutgoingMessageIds::ReqHistoricalNews => 86,
            OutgoingMessageIds::ReqHeadTimestamp => 87,
            OutgoingMessageIds::ReqHistogramData => 88,
            OutgoingMessageIds::CancelHistogramData => 89,
            OutgoingMessageIds::CancelHeadTimestamp => 90,
            OutgoingMessageIds::ReqMarketRule => 91,
            OutgoingMessageIds::ReqPnl => 92,
            OutgoingMessageIds::CancelPnl => 93,
            OutgoingMessageIds::ReqPnlSingle => 94,
            OutgoingMessageIds::CancelPnlSingle => 95,
            OutgoingMessageIds::ReqHistoricalTicks => 96,
            OutgoingMessageIds::ReqTickByTickData => 97,
            OutgoingMessageIds::CancelTickByTickData => 98,
            OutgoingMessageIds::ReqCompletedOrders => 99,
        }
    }

    /// The kind that the wire code `code` stands for, if any.
    pub open spec fn spec_from_code(code: i32) -> Option<OutgoingMessageIds> {
        match code {
            1 => Some(OutgoingMessageIds::ReqMktData),
            2 => Some(OutgoingMessageIds::CancelMktData),
            3 => Some(OutgoingMessageIds::PlaceOrder),
            4 => Some(OutgoingMessageIds::CancelOrder),
            5 => Some(OutgoingMessageIds::ReqOpenOrders),
            6 => Some(OutgoingMessageIds::ReqAcctData),
            7 => Some(OutgoingMessageIds::ReqExecutions),
            8 => Some(OutgoingMessageIds::ReqIds),
            9 => Some(OutgoingMessageIds::ReqContractData),
            10 => Some(OutgoingMessageIds::ReqMktDepth),
            11 => Some(OutgoingMessageIds::CancelMktDepth),
            12 => Some(OutgoingMessageIds::ReqNewsBulletins),
            13 => Some(OutgoingMessageIds::CancelNewsBulletins),
            14 => Some(OutgoingMessageIds::SetServerLoglevel),
            15 => Some(OutgoingMessageIds::ReqAutoOpenOrders),
            16 => Some(OutgoingMessageIds::ReqAllOpenOrders),
            17 => Some(OutgoingMessageIds::ReqManagedAccts),
            18 => Some(OutgoingMessageIds::ReqFa),
            19 => Some(OutgoingMessageIds::ReplaceFa),
            20 => Some(OutgoingMessageIds::ReqHistoricalData),
            21 => Some(OutgoingMessageIds::ExerciseOptions),
            22 => Some(OutgoingMessageIds::ReqScannerSubscription),
            23 => Some(OutgoingMessageIds::CancelScannerSubscription),
            24 => Some(OutgoingMessageIds::ReqScannerParameters),
            25 => Some(OutgoingMessageIds::CancelHistoricalData),
            49 => Some(OutgoingMessageIds::ReqCurrentTime),
            50 => Some(OutgoingMessageIds::ReqRealTimeBars),
            51 => Some(OutgoingMessageIds::CancelRealTimeBars),
            52 => Some(OutgoingMessageIds::ReqFundamentalData),
            53 => Some(OutgoingMessageIds::CancelFundamentalData),
            54 => Some(OutgoingMessageIds::ReqCalcImpliedVolat),
            55 => Some(OutgoingMessageIds::ReqCalcOptionPrice),
            56 => Some(OutgoingMessageIds::CancelCalcImpliedVolat),
            57 => Some(OutgoingMessageIds::CancelCalcOptionPrice),
            58 => Some(OutgoingMessageIds::ReqGlobalCancel),
            59 => Some(OutgoingMessageIds::ReqMarketDataType),
            61 => Some(OutgoingMessageIds::ReqPositions),
            62 => Some(OutgoingMessageIds::ReqAccountSummary),
            63 => Some(OutgoingMessageIds::CancelAccountSummary),
            64 => Some(OutgoingMessageIds::CancelPositions),
            65 => Some(OutgoingMessageIds::VerifyRequest),
            66 => Some(OutgoingMessageIds::VerifyMessage),
            67 => Some(OutgoingMessageIds::QueryDisplayGroups),
            68 => Some(OutgoingMessageIds::SubscribeToGroupEvents),
            69 => Some(OutgoingMessageIds::UpdateDisplayGroup),
            70 => Some(OutgoingMessageIds::UnsubscribeFromGroupEvents),
            71 => Some(OutgoingMessageIds::StartApi),
            72 => Some(OutgoingMessageIds::VerifyAndAuthRequest),
            73 => Some(OutgoingMessageIds::VerifyAndAuthMessage),
            74 => Some(OutgoingMessageIds::ReqPositionsMulti),
            75 => Some(OutgoingMessageIds::CancelPositionsMulti),
            76 => Some(OutgoingMessageIds::ReqAccountUpdatesMulti),
            77 => Some(OutgoingMessageIds::CancelAccountUpdatesMulti),
            78 => Some(OutgoingMessageIds::ReqSecDefOptParams),
            79 => Some(OutgoingMessageIds::ReqSoftDollarTiers),
            80 => Some(OutgoingMessageIds::ReqFamilyCodes),
            81 => Some(OutgoingMessageIds::ReqMatchingSymbols),
            82 => Some(OutgoingMessageIds::ReqMktDepthExchanges),
            83 => Some(OutgoingMessageIds::ReqSmartComponents),
            84 => Some(OutgoingMessageIds::ReqNewsArticle),
            85 => Some(OutgoingMessageIds::ReqNewsProviders),
            86 => Some(OutgoingMessageIds::ReqHistoricalNews),
            87 => Some(OutgoingMessageIds::ReqHeadTimestamp),
            88 => Some(OutgoingMessageIds::ReqHistogramData),
            89 => Some(OutgoingMessageIds::CancelHistogramData),
            90 => Some(OutgoingMessageIds::CancelHeadTimestamp),
            91 => Some(OutgoingMessageIds::ReqMarketRule),
            92 => Some(OutgoingMessageIds::ReqPnl),
            93 => Some(OutgoingMessageIds::CancelPnl),
            94 => Some(OutgoingMessageIds::ReqPnlSingle),
            95 => Some(OutgoingMessageIds::CancelPnlSingle),
            96 => Some(OutgoingMessageIds::ReqHistoricalTicks),
            97 => Some(OutgoingMessageIds::ReqTickByTickData),
            98 => Some(OutgoingMessageIds::CancelTickByTickData),
            99 => Some(OutgoingMessageIds::ReqCompletedOrders),
            _ => None,
        }
    }

    /// The wire code of this kind.
    pub fn code(&self) -> (r: i32)
        ensures
            r == self.spec_code(),
    {
        match self {
            OutgoingMessageIds::ReqMktData => 1,
            OutgoingMessageIds::CancelMktData => 2,
            OutgoingMessageIds::PlaceOrder => 3,
            OutgoingMessageIds::CancelOrder => 4,
            OutgoingMessageIds::ReqOpenOrders => 5,
            OutgoingMessageIds::ReqAcctData => 6,
            OutgoingMessageIds::ReqExecutions => 7,
            OutgoingMessageIds::ReqIds => 8,
            OutgoingMessageIds::ReqContractData => 9,
            OutgoingMessageIds::ReqMktDepth => 10,
            OutgoingMessageIds::CancelMktDepth => 11,
            OutgoingMessageIds::ReqNewsBulletins => 12,
            OutgoingMessageIds::CancelNewsBulletins => 13,
            OutgoingMessageIds::SetServerLoglevel => 14,
            OutgoingMessageIds::ReqAutoOpenOrders => 15,
            OutgoingMessageIds::ReqAllOpenOrders => 16,
            OutgoingMessageIds::ReqManagedAccts => 17,
            OutgoingMessageIds::ReqFa => 18,
            OutgoingMessageIds::ReplaceFa => 19,
            OutgoingMessageIds::ReqHistoricalData => 20,
            OutgoingMessageIds::ExerciseOptions => 21,
            OutgoingMessageIds::ReqScannerSubscription => 22,
            OutgoingMessageIds::CancelScannerSubscription => 23,
            OutgoingMessageIds::ReqScannerParameters => 24,
            OutgoingMessageIds::CancelHistoricalData => 25,
            OutgoingMessageIds::ReqCurrentTime => 49,
            OutgoingMessageIds::ReqRealTimeBars => 50,
            OutgoingMessageIds::CancelRealTimeBars => 51,
            OutgoingMessageIds::ReqFundamentalData => 52,
            OutgoingMessageIds::CancelFundamentalData => 53,
            OutgoingMessageIds::ReqCalcImpliedVolat => 54,
            OutgoingMessageIds::ReqCalcOptionPrice => 55,
            OutgoingMessageIds::CancelCalcImpliedVolat => 56,
            OutgoingMessageIds::CancelCalcOptionPrice => 57,
            OutgoingMessageIds::ReqGlobalCancel => 58,
            OutgoingMessageIds::ReqMarketDataType => 59,
            OutgoingMessageIds::ReqPositions => 61,
            OutgoingMessageIds::ReqAccountSummary => 62,
            OutgoingMessageIds::CancelAccountSummary => 63,
            OutgoingMessageIds::CancelPositions => 64,
            OutgoingMessageIds::VerifyRequest => 65,
            OutgoingMessageIds::VerifyMessage => 66,
            OutgoingMessageIds::QueryDisplayGroups => 67,
            OutgoingMessageIds::SubscribeToGroupEvents => 68,
            OutgoingMessageIds::UpdateDisplayGroup => 69,
            OutgoingMessageIds::UnsubscribeFromGroupEvents => 70,
            OutgoingMessageIds::StartApi => 71,
            OutgoingMessageIds::VerifyAndAuthRequest => 72,
            OutgoingMessageIds::VerifyAndAuthMessage => 73,
            OutgoingMessageIds::ReqPositionsMulti => 74,
            OutgoingMessageIds::CancelPositionsMulti => 75,
            OutgoingMessageIds::ReqAccountUpdatesMulti => 76,
            OutgoingMessageIds::CancelAccountUpdatesMulti => 77,
            OutgoingMessageIds::ReqSecDefOptParams => 78,
            OutgoingMessageIds::ReqSoftDollarTiers => 79,
            OutgoingMessageIds::ReqFamilyCodes => 80,
            OutgoingMessageIds::ReqMatchingSymbols => 81,
            OutgoingMessageIds::ReqMktDepthExchanges => 82,
            OutgoingMessageIds::ReqSmartComponents => 83,
            OutgoingMessageIds::ReqNewsArticle => 84,
            OutgoingMessageIds::ReqNewsProviders => 85,
            OutgoingMessageIds::ReqHistoricalNews => 86,
            OutgoingMessageIds::ReqHeadTimestamp => 87,
            OutgoingMessageIds::ReqHistogramData => 88,
            OutgoingMessageIds::CancelHistogramData => 89,
            OutgoingMessageIds::CancelHeadTimestamp => 90,
            OutgoingMessageIds::ReqMarketRule => 91,
            OutgoingMessageIds::ReqPnl => 92,
            OutgoingMessageIds::CancelPnl => 93,
            OutgoingMessageIds::ReqPnlSingle => 94,
            OutgoingMessageIds::CancelPnlSingle => 95,
            OutgoingMessageIds::ReqHistoricalTicks => 96,
            OutgoingMessageIds::ReqTickByTickData => 97,
            OutgoingMessageIds::CancelTickByTickData => 98,
            OutgoingMessageIds::ReqCompletedOrders => 99,
        }
    }

    /// The kind that the wire code `code` stands for; `None` for a code
    /// that no kind has.
    pub fn from_code(code: i32) -> (r: Option<OutgoingMessageIds>)
        ensures
            r == Self::spec_from_code(code),
            r matches Some(k) ==> k.spec_code() == code,
            r is None ==> forall|k: OutgoingMessageIds| #[trigger] k.spec_code() != code,
    {
        proof {
            assert forall|k: OutgoingMessageIds| #[trigger] k.spec_code() == code implies Self::spec_from_code(code) == Some(k) by {
                Self::lemma_code_round_trip(k);
            }
        }
        match code {
            1 => Some(OutgoingMessageIds::ReqMktData),
            2 => Some(OutgoingMessageIds::CancelMktData),
            3 => Some(OutgoingMessageIds::PlaceOrder),
            4 => Some(OutgoingMessageIds::CancelOrder),
            5 => Some(OutgoingMessageIds::ReqOpenOrders),
            6 => Some(OutgoingMessageIds::ReqAcctData),
            7 => Some(OutgoingMessageIds::ReqExecutions),
            8 => Some(OutgoingMessageIds::ReqIds),
            9 => Some(OutgoingMessageIds::ReqContractData),
            10 => Some(OutgoingMessageIds::ReqMktDepth),
            11 => Some(OutgoingMessageIds::CancelMktDepth),
            12 => Some(OutgoingMessageIds::ReqNewsBulletins),
            13 => Some(OutgoingMessageIds::CancelNewsBulletins),
            14 => Some(OutgoingMessageIds::SetServerLoglevel),
            15 => Some(OutgoingMessageIds::ReqAutoOpenOrders),
            16 => Some(OutgoingMessageIds::ReqAllOpenOrders),
            17 => Some(OutgoingMessageIds::ReqManagedAccts),
            18 => Some(OutgoingMessageIds::ReqFa),
            19 => Some(OutgoingMessageIds::ReplaceFa),
            20 => Some(OutgoingMessageIds::ReqHistoricalData),
            21 => Some(OutgoingMessageIds::ExerciseOptions),
            22 => Some(OutgoingMessageIds::ReqScannerSubscription),
            23 => Some(OutgoingMessageIds::CancelScannerSubscription),
            24 => Some(OutgoingMessageIds::ReqScannerParameters),
            25 => Some(OutgoingMessageIds::CancelHistoricalData),
            49 => Some(OutgoingMessageIds::ReqCurrentTime),
            50 => Some(OutgoingMessageIds::ReqRealTimeBars),
            51 => Some(OutgoingMessageIds::CancelRealTimeBars),
            52 => Some(OutgoingMessageIds::ReqFundamentalData),
            53 => Some(OutgoingMessageIds::CancelFundamentalData),
            54 => Some(OutgoingMessageIds::ReqCalcImpliedVolat),
            55 => Some(OutgoingMessageIds::ReqCalcOptionPrice),
            56 => Some(OutgoingMessageIds::CancelCalcImpliedVolat),
            57 => Some(OutgoingMessageIds::CancelCalcOptionPrice),
            58 => Some(OutgoingMessageIds::ReqGlobalCancel),
            59 => Some(OutgoingMessageIds::ReqMarketDataType),
            61 => Some(OutgoingMessageIds::ReqPositions),
            62 => Some(OutgoingMessageIds::ReqAccountSummary),
            63 => Some(OutgoingMessageIds::CancelAccountSummary),
            64 => Some(OutgoingMessageIds::CancelPositions),
            65 => Some(OutgoingMessageIds::VerifyRequest),
            66 => Some(OutgoingMessageIds::VerifyMessage),
            67 => Some(OutgoingMessageIds::QueryDisplayGroups),
            68 => Some(OutgoingMessageIds::SubscribeToGroupEvents),
            69 => Some(OutgoingMessageIds::UpdateDisplayGroup),
            70 => Some(OutgoingMessageIds::UnsubscribeFromGroupEvents),
            71 => Some(OutgoingMessageIds::StartApi),
            72 => Some(OutgoingMessageIds::VerifyAndAuthRequest),
            73 => Some(OutgoingMessageIds::VerifyAndAuthMessage),
            74 => Some(OutgoingMessageIds::ReqPositionsMulti),
            75 => Some(OutgoingMessageIds::CancelPositionsMulti),
            76 => Some(OutgoingMessageIds::ReqAccountUpdatesMulti),
            77 => Some(OutgoingMessageIds::CancelAccountUpdatesMulti),
            78 => Some(OutgoingMessageIds::ReqSecDefOptParams),
            79 => Some(OutgoingMessageIds::ReqSoftDollarTiers),
            80 => Some(OutgoingMessageIds::ReqFamilyCodes),
            81 => Some(OutgoingMessageIds::ReqMatchingSymbols),
            82 => Some(OutgoingMessageIds::ReqMktDepthExchanges),
            83 => Some(OutgoingMessageIds::ReqSmartComponents),
            84 => Some(OutgoingMessageIds::ReqNewsArticle),
            85 => Some(OutgoingMessageIds::ReqNewsProviders),
            86 => Some(OutgoingMessageIds::ReqHistoricalNews),
            87 => Some(OutgoingMessageIds::ReqHeadTimestamp),
            88 => Some(OutgoingMessageIds::ReqHistogramData),
            89 => Some(OutgoingMessageIds::CancelHistogramData),
            90 => Some(OutgoingMessageIds::CancelHeadTimestamp),
            91 => Some(OutgoingMessageIds::ReqMarketRule),
            92 => Some(OutgoingMessageIds::ReqPnl),
            93 => Some(OutgoingMessageIds::CancelPnl),
            94 => Some(OutgoingMessageIds::ReqPnlSingle),
            95 => Some(OutgoingMessageIds::CancelPnlSingle),
            96 => Some(OutgoingMessageIds::ReqHistoricalTicks),
            97 => Some(OutgoingMessageIds::ReqTickByTickData),
            98 => Some(OutgoingMessageIds::CancelTickByTickData),
            99 => Some(OutgoingMessageIds::ReqCompletedOrders),
            _ => None,
        }
    }

    /// Every kind is found again from its own code, and a code names at
    /// most the one kind that has it.
    pub proof fn lemma_code_round_trip(k: OutgoingMessageIds)
        ensures
            Self::spec_from_code(k.spec_code()) == Some(k),
    {
    }

    /// A code that the table names decodes to a kind that carries that code.
    pub proof fn lemma_from_code_sound(code: i32)
        ensures
            Self::spec_from_code(code) matches Some(k) ==> k.spec_code() == code,
    {
    }
}

/// A kind of financial-advisor configuration data.
#[derive(Debug, Clone, Copy, PartialEq, Eq, Structural)]
pub enum FAMessageDataTypes {
    Groups,
    Profiles,
    Aliases,
}

impl FAMessageDataTypes {
    /// The wire code of this kind.
    pub open spec fn spec_code(self) -> i32 {
        match self {
            FAMessageDataTypes::Groups => 1,
            FAMessageDataTypes::Profiles => 2,
            FAMessageDataTypes::Aliases => 3,
        }
    }

    /// The kind that the wire code `code` stands for, if any.
    pub open spec fn spec_from_code(code: i32) -> Option<FAMessageDataTypes> {
        match code {
            1 => Some(FAMessageDataTypes::Groups),
            2 => Some(FAMessageDataTypes::Profiles),
            3 => Some(FAMessageDataTypes::Aliases),
            _ => None,
        }
    }

    /// The wire code of this kind.
    pub fn code(&self) -> (r: i32)
        ensures
            r == self.spec_code(),
    {
        match self {
            FAMessageDataTypes::Groups => 1,
            FAMessageDataTypes::Profiles => 2,
            FAMessageDataTypes::Aliases => 3,
        }
    }

    /// The kind that the wire code `code` stands for; `None` for a code
    /// that no kind has.
    pub fn from_code(code: i32) -> (r: Option<FAMessageDataTypes>)
        ensures
            r == Self::spec_from_code(code),
            r matches Some(k) ==> k.spec_code() == code,
            r is None ==> forall|k: FAMessageDataTypes| #[trigger] k.spec_code() != code,
    {
        proof {
            assert forall|k: FAMessageDataTypes| #[trigger] k.spec_code() == code implies Self::spec_from_code(code) == Some(k) by {
                Self::lemma_code_round_trip(k);
            }
        }
        match code {
            1 => Some(FAMessageDataTypes::Groups),
            2 => Some(FAMessageDataTypes::Profiles),
            3 => Some(FAMessageDataTypes::Aliases),
            _ => None,
        }
    }

    /// Every kind is found again from its own code, and a code names at
    /// most the one kind that has it.
    pub proof fn lemma_code_round_trip(k: FAMessageDataTypes)
        ensures
            Self::spec_from_code(k.spec_code()) == Some(k),
    {
    }

    /// A code that the table names decodes to a kind that carries that code.
    pub proof fn lemma_from_code_sound(code: i32)
        ensures
            Self::spec_from_code(code) matches Some(k) ==> k.spec_code() == code,
    {
    }
}

} // verus!
