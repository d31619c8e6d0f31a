//! Trading-endpoint parameter sets and response shapes.
//!
//! These types drive the signer's parameter set for the two private
//! methods the crate addresses: fetching the account balance and
//! placing an order. Building the parameters from an order is pure
//! logic and verified; the transport and JSON decoding around it are
//! the caller's business.

use vstd::prelude::*;
use crate::dec::dec_of_int;
use crate::dec::format_i64;
use crate::params::ParameterSet;

verus! {

/// How an order's price fields are interpreted.
#[derive(Debug, Clone, Copy)]
pub enum OrderType {
    Market,
    /// price = limit price
    Limit,
    /// price = stop loss price
    StopLoss,
    /// price = take profit price
    TakeProfit,
    /// price = stop loss trigger price, price2 = triggered limit price
    StopLossLimit,
    /// price = take profit trigger price, price2 = triggered limit price
    TakeProfitLimit,
    SettlePosition,
}

/// Order direction: buy or sell.
#[derive(Debug, Clone, Copy)]
pub enum OrderDirection {
    Buy,
    Sell,
}

/// The wire name of an order type.
pub open spec fn order_type_wire(t: OrderType) -> Seq<u8> {
    match t {
        OrderType::Market => seq![109u8, 97u8, 114u8, 107u8, 101u8, 116u8],
        OrderType::Limit => seq![108u8, 105u8, 109u8, 105u8, 116u8],
        OrderType::StopLoss => seq![115u8, 116u8, 111u8, 112u8, 45u8, 108u8, 111u8, 115u8, 115u8],
        OrderType::TakeProfit => seq![
            116u8, 97u8, 107u8, 101u8, 45u8, 112u8, 114u8, 111u8, 102u8, 105u8, 116u8,
        ],
        OrderType::StopLossLimit => seq![
            115u8, 116u8, 111u8, 112u8, 45u8, 108u8, 111u8, 115u8, 115u8, 45u8, 108u8, 105u8,
            109u8, 105u8, 116u8,
        ],
        OrderType::TakeProfitLimit => seq![
            116u8, 97u8, 107u8, 101u8, 45u8, 112u8, 114u8, 111u8, 102u8, 105u8, 116u8, 45u8,
            108u8, 105u8, 109u8, 105u8, 116u8,
        ],
        OrderType::SettlePosition => seq![
            115u8, 101u8, 116u8, 116u8, 108u8, 101u8, 45u8, 112u8, 111u8, 115u8, 105u8, 116u8,
            105u8, 111u8, 110u8,
        ],
    }
}

/// The wire name of an order direction.
pub open spec fn order_direction_wire(d: OrderDirection) -> Seq<u8> {
    match d {
        OrderDirection::Buy => seq![98u8, 117u8, 121u8],
        OrderDirection::Sell => seq![115u8, 101u8, 108u8, 108u8],
    }
}

impl OrderType {
    /// The name this order type travels under: `market`, `limit`,
    /// `stop-loss`, `take-profit`, `stop-loss-limit`,
    /// `take-profit-limit` or `settle-position`.
    pub fn wire_name(&self) -> (r: Vec<u8>)
        ensures
            r@ == order_type_wire(*self),
    {
        match *self {
            OrderType::Market => {
                let r: Vec<u8> = vec![109u8, 97u8, 114u8, 107u8, 101u8, 116u8];
                proof {
                    assert(r@ =~= order_type_wire(OrderType::Market));
                }
                r
            },
            OrderType::Limit => {
                let r: Vec<u8> = vec![108u8, 105u8, 109u8, 105u8, 116u8];
                proof {
                    assert(r@ =~= order_type_wire(OrderType::Limit));
                }
                r
            },
            OrderType::StopLoss => {
                let r: Vec<u8> = vec![115u8, 116u8, 111u8, 112u8, 45u8, 108u8, 111u8, 115u8, 115u8];
                proof {
                    assert(r@ =~= order_type_wire(OrderType::StopLoss));
                }
                r
            },
            OrderType::TakeProfit => {
                let r: Vec<u8> = vec![
                    116u8, 97u8, 107u8, 101u8, 45u8, 112u8, 114u8, 111u8, 102u8, 105u8, 116u8,
                ];
                proof {
                    assert(r@ =~= order_type_wire(OrderType::TakeProfit));
                }
                r
            },
            OrderType::StopLossLimit => {
                let r: Vec<u8> = vec![
                    115u8, 116u8, 111u8, 112u8, 45u8, 108u8, 111u8, 115u8, 115u8, 45u8, 108u8,
                    105u8, 109u8, 105u8, 116u8,
                ];
                proof {
                    assert(r@ =~= order_type_wire(OrderType::StopLossLimit));
                }
                r
            },
            OrderType::TakeProfitLimit => {
                let r: Vec<u8> = vec![
                    116u8, 97u8, 107u8, 101u8, 45u8, 112u8, 114u8, 111u8, 102u8, 105u8, 116u8,
                    45u8, 108u8, 105u8, 109u8, 105u8, 116u8,
                ];
                proof {
                    assert(r@ =~= order_type_wire(OrderType::TakeProfitLimit));
                }
                r
            },
            OrderType::SettlePosition => {
                let r: Vec<u8> = vec![
                    115u8, 101u8, 116u8, 116u8, 108u8, 101u8, 45u8, 112u8, 111u8, 115u8, 105u8,
                    116u8, 105u8, 111u8, 110u8,
                ];
                proof {
                    assert(r@ =~= order_type_wire(OrderType::SettlePosition));
                }
                r
            },
        }
    }
}

impl OrderDirection {
    /// The name this direction travels under: `buy` or `sell`.
    pub fn wire_name(&self) -> (r: Vec<u8>)
        ensures
            r@ == order_direction_wire(*self),
    {
        match *self {
            OrderDirection::Buy => {
                let r: Vec<u8> = vec![98u8, 117u8, 121u8];
                proof {
                    assert(r@ =~= order_direction_wire(OrderDirection::Buy));
                }
                r
            },
            OrderDirection::Sell => {
                let r: Vec<u8> = vec![115u8, 101u8, 108u8, 108u8];
                proof {
                    assert(r@ =~= order_direction_wire(OrderDirection::Sell));
                }
                r
            },
        }
    }
}

/// A new order for the order-placing endpoint. Optional fields are sent
/// only when present.
pub struct NewOrder {
    /// Asset pair.
    pub pair: Vec<u8>,
    /// Order direction (buy or sell).
    pub order_direction: OrderDirection,
    /// Order type; decides which price fields apply.
    pub order_type: OrderType,
    /// Price; meaning depends on the order type.
    pub price: Option<Vec<u8>>,
    /// Secondary price; meaning depends on the order type.
    pub price2: Option<Vec<u8>>,
    /// Order volume in lots.
    pub volume: Option<Vec<u8>>,
    /// Desired leverage.
    pub leverage: Option<Vec<u8>>,
    /// Comma-delimited order flags.
    pub oflags: Option<Vec<u8>>,
    /// Scheduled start time: 0 for now, `+n` for seconds from now, or a
    /// unix timestamp.
    pub starttm: Option<i64>,
    /// Expiration time: 0 for none, `+n` for seconds from now, or a
    /// unix timestamp.
    pub expiretm: Option<i64>,
    /// User reference id.
    pub userref: Option<Vec<u8>>,
    /// Validate inputs only; do not submit the order.
    pub validate: Option<bool>,
}

/// The parameter mapping an order stands for: the pair, direction and
/// type always; each optional field only when present; timestamps in
/// decimal; and `validate=1` whenever validation is requested.
pub open spec fn order_params_map(o: NewOrder) -> Map<Seq<u8>, Seq<u8>> {
    let m = Map::<Seq<u8>, Seq<u8>>::empty().insert(
        seq![112u8, 97u8, 105u8, 114u8],
        o.pair@,
    ).insert(
        seq![116u8, 121u8, 112u8, 101u8],
        order_direction_wire(o.order_direction),
    ).insert(
        seq![111u8, 114u8, 100u8, 101u8, 114u8, 116u8, 121u8, 112u8, 101u8],
        order_type_wire(o.order_type),
    );
    let m = match o.price {
        Some(v) => m.insert(seq![112u8, 114u8, 105u8, 99u8, 101u8], v@),
        None => m,
    };
    let m = match o.price2 {
        Some(v) => m.insert(seq![112u8, 114u8, 105u8, 99u8, 101u8, 50u8], v@),
        None => m,
    };
    let m = match o.volume {
        Some(v) => m.insert(seq![118u8, 111u8, 108u8, 117u8, 109u8, 101u8], v@),
        None => m,
    };
    let m = match o.leverage {
        Some(v) => m.insert(seq![108u8, 101u8, 118u8, 101u8, 114u8, 97u8, 103u8, 101u8], v@),
        None => m,
    };
    let m = match o.oflags {
        Some(v) => m.insert(seq![111u8, 102u8, 108u8, 97u8, 103u8, 115u8], v@),
        None => m,
    };
    let m = match o.userref {
        Some(v) => m.insert(seq![117u8, 115u8, 101u8, 114u8, 114u8, 101u8, 102u8], v@),
        None => m,
    };
    let m = match o.starttm {
        Some(t) => m.insert(
            seq![115u8, 116u8, 97u8, 114u8, 116u8, 116u8, 109u8],
            dec_of_int(t as int),
        ),
        None => m,
    };
    let m = match o.expiretm {
        Some(t) => m.insert(
            seq![101u8, 120u8, 112u8, 105u8, 114u8, 101u8, 116u8, 109u8],
            dec_of_int(t as int),
        ),
        None => m,
    };
    let m = match o.validate {
        Some(_) => m.insert(
            seq![118u8, 97u8, 108u8, 105u8, 100u8, 97u8, 116u8, 101u8],
            seq![49u8],
        ),
        None => m,
    };
    m
}

/// Builds the canonical parameter set for placing `order`.
pub fn order_params(order: NewOrder) -> (p: ParameterSet)
    ensures
        p.wf(),
        p.as_map() == order_params_map(order),
{
    let mut p = ParameterSet::new();
    let k: Vec<u8> = vec![112u8, 97u8, 105u8, 114u8];
    proof {
        assert(k@ =~= seq![112u8, 97u8, 105u8, 114u8]);
    }
    p.insert(k, order.pair);
    let k: Vec<u8> = vec![116u8, 121u8, 112u8, 101u8];
    proof {
        assert(k@ =~= seq![116u8, 121u8, 112u8, 101u8]);
    }
    p.insert(k, order.order_direction.wire_name());
    let k: Vec<u8> = vec![111u8, 114u8, 100u8, 101u8, 114u8, 116u8, 121u8, 112u8, 101u8];
    proof {
        assert(k@ =~= seq![111u8, 114u8, 100u8, 101u8, 114u8, 116u8, 121u8, 112u8, 101u8]);
    }
    p.insert(k, order.order_type.wire_name());
    match order.price {
        Some(v) => {
            let k: Vec<u8> = vec![112u8, 114u8, 105u8, 99u8, 101u8];
            proof {
                assert(k@ =~= seq![112u8, 114u8, 105u8, 99u8, 101u8]);
            }
            p.insert(k, v);
        },
        None => {},
    }
    match order.price2 {
        Some(v) => {
            let k: Vec<u8> = vec![112u8, 114u8, 105u8, 99u8, 101u8, 50u8];
            proof {
                assert(k@ =~= seq![112u8, 114u8, 105u8, 99u8, 101u8, 50u8]);
            }
            p.insert(k, v);
        },
        None => {},
    }
    match order.volume {
        Some(v) => {
            let k: Vec<u8> = vec![118u8, 111u8, 108u8, 117u8, 109u8, 101u8];
            proof {
                assert(k@ =~= seq![118u8, 111u8, 108u8, 117u8, 109u8, 101u8]);
            }
            p.insert(k, v);
        },
        None => {},
    }
    match order.leverage {
        Some(v) => {
            let k: Vec<u8> = vec![108u8, 101u8, 118u8, 101u8, 114u8, 97u8, 103u8, 101u8];
            proof {
                assert(k@ =~= seq![108u8, 101u8, 118u8, 101u8, 114u8, 97u8, 103u8, 101u8]);
            }
            p.insert(k, v);
        },
        None => {},
    }
    match order.oflags {
        Some(v) => {
            let k: Vec<u8> = vec![111u8, 102u8, 108u8, 97u8, 103u8, 115u8];
            proof {
                assert(k@ =~= seq![111u8, 102u8, 108u8, 97u8, 103u8, 115u8]);
            }
            p.insert(k, v);
        },
        None => {},
    }
    match order.userref {
        Some(v) => {
            let k: Vec<u8> = vec![117u8, 115u8, 101u8, 114u8, 114u8, 101u8, 102u8];
            proof {
                assert(k@ =~= seq![117u8, 115u8, 101u8, 114u8, 114u8, 101u8, 102u8]);
            }
            p.insert(k, v);
        },
        None => {},
    }
    match order.starttm {
        Some(t) => {
            let k: Vec<u8> = vec![115u8, 116u8, 97u8, 114u8, 116u8, 116u8, 109u8];
            proof {
                assert(k@ =~= seq![115u8, 116u8, 97u8, 114u8, 116u8, 116u8, 109u8]);
            }
            p.insert(k, format_i64(t));
        },
        None => {},
    }
    match order.expiretm {
        Some(t) => {
            let k: Vec<u8> = vec![101u8, 120u8, 112u8, 105u8, 114u8, 101u8, 116u8, 109u8];
            proof {
                assert(k@ =~= seq![101u8, 120u8, 112u8, 105u8, 114u8, 101u8, 116u8, 109u8]);
            }
            p.insert(k, format_i64(t));
        },
        None => {},
    }
    match order.validate {
        Some(_) => {
            let k: Vec<u8> = vec![118u8, 97u8, 108u8, 105u8, 100u8, 97u8, 116u8, 101u8];
            proof {
                assert(k@ =~= seq![118u8, 97u8, 108u8, 105u8, 100u8, 97u8, 116u8, 101u8]);
            }
            let v: Vec<u8> = vec![49u8];
            proof {
                assert(v@ =~= seq![49u8]);
            }
            p.insert(k, v);
        },
        None => {},
    }
    p
}

/// The shared shape of a decoded endpoint response: a result when the
/// call succeeded, and the service's error strings.
pub struct ApiResponse<T> {
    /// The decoded result, when the service returned one.
    pub result: Option<T>,
    /// Error strings reported by the service; empty on success.
    pub error: Vec<String>,
}

/// Why a decoded response carries no usable result.
pub enum ResponseError {
    /// The service reported these errors.
    Service(Vec<String>),
    /// The service reported no error yet returned no result.
    MissingResult,
}

impl<T> ApiResponse<T> {
    /// Reads the response as a result: the decoded value when the
    /// service reported no error and returned one; otherwise exactly
    /// which of the two failure shapes held.
    pub fn into_result(self) -> (r: Result<T, ResponseError>)
        ensures
            match r {
                Ok(v) => self.error@.len() == 0 && self.result == Some(v),
                Err(e) => match e {
                    ResponseError::Service(errs) => self.error@.len() > 0 && errs == self.error,
                    ResponseError::MissingResult => self.error@.len() == 0 && self.result is None,
                },
            },
    {
        if self.error.len() > 0 {
            Err(ResponseError::Service(self.error))
        } else {
            match self.result {
                Some(v) => Ok(v),
                None => Err(ResponseError::MissingResult),
            }
        }
    }
}

/// The decoded result of placing an order.
pub struct AddOrderResponse {
    /// Human-readable order description, as name-value pairs.
    pub descr: Vec<(String, String)>,
    /// Transaction ids of the placed order, when one was submitted.
    pub txid: Option<Vec<String>>,
}

} // verus!
